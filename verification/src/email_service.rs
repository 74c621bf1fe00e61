//! The text of the mails that the service sends.

use vstd::prelude::*;
use vstd::string::StringExecFns;

verus! {

/// A mail, ready to be handed to a provider.
#[derive(Debug, Clone, PartialEq, Eq)]
pub struct Email {
    pub to: String,
    pub subject: String,
    pub body: String,
}

/// The body of the mail that carries a passcode.
pub open spec fn otp_email_body(otp: Seq<char>) -> Seq<char> {
    "Your InheritX verification code is: "@ + otp
        + "\n\nThis code will expire in 5 minutes.\n\nIf you didn't request this code, please ignore this email."@
}

/// Composes mails. Sending them is the caller's part.
pub struct EmailService;

impl EmailService {
    /// Composes the mail that carries the passcode `otp` to `to`.
    pub fn otp_email(to: &str, otp: &str) -> (email: Email)
        ensures
            email.to@ == to@,
            email.subject@ == "Your InheritX Verification Code"@,
            email.body@ == otp_email_body(otp@),
    {
        let body = "Your InheritX verification code is: ".to_owned().concat(otp).concat(
            "\n\nThis code will expire in 5 minutes.\n\nIf you didn't request this code, please ignore this email.",
        );
        Email { to: to.to_owned(), subject: "Your InheritX Verification Code".to_owned(), body }
    }
}

} // verus!
