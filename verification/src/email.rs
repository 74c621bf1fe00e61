//! The mail service that carries passcodes and notifications.

use vstd::prelude::*;
use crate::config::EmailConfig;

verus! {

/// A mail service, configured once.
pub struct EmailService {
    config: EmailConfig,
}

impl EmailService {
    /// The configuration that the service was made with.
    pub closed spec fn config(&self) -> EmailConfig {
        self.config
    }

    /// A mail service that sends as `config` says.
    pub fn new(config: EmailConfig) -> (service: Self)
        ensures
            service.config() == config,
    {
        EmailService { config }
    }

    /// The address that mail is sent from.
    pub fn from_email(&self) -> (from: &str)
        ensures
            from@ == self.config().from_email@,
    {
        self.config.from_email.as_str()
    }
}

} // verus!
