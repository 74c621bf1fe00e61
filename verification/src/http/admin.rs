//! The administrative dashboard: its requests and its reports.

use vstd::prelude::*;

verus! {

/// Where the review of a user stands.
#[derive(Debug, Clone, Copy, PartialEq, Eq, Structural)]
pub enum KycStatus {
    Pending,
    Approved,
    Rejected,
}

/// The status that a stored name stands for. A name that is neither
/// `approved` nor `rejected` stands for a review that is still pending.
pub open spec fn kyc_status_named(name: Seq<char>) -> KycStatus {
    if name == "approved"@ {
        KycStatus::Approved
    } else if name == "rejected"@ {
        KycStatus::Rejected
    } else {
        KycStatus::Pending
    }
}

/// The name that a status is stored under.
pub open spec fn kyc_status_name(status: KycStatus) -> Seq<char> {
    match status {
        KycStatus::Pending => "pending"@,
        KycStatus::Approved => "approved"@,
        KycStatus::Rejected => "rejected"@,
    }
}

impl KycStatus {
    /// The status that a stored name stands for.
    pub fn from_str(name: &str) -> (status: KycStatus)
        ensures
            status == kyc_status_named(name@),
    {
        let name = name.to_owned();
        if name == "approved".to_owned() {
            KycStatus::Approved
        } else if name == "rejected".to_owned() {
            KycStatus::Rejected
        } else {
            KycStatus::Pending
        }
    }

    /// The name that this status is stored under.
    pub fn to_string(&self) -> (name: String)
        ensures
            name@ == kyc_status_name(*self),
    {
        match self {
            KycStatus::Pending => "pending".to_owned(),
            KycStatus::Approved => "approved".to_owned(),
            KycStatus::Rejected => "rejected".to_owned(),
        }
    }

    /// The status of a user whose review may not have been recorded yet:
    /// the recorded one, or pending.
    pub fn of_record(recorded: Option<&str>) -> (status: KycStatus)
        ensures
            status == match recorded {
                Some(name) => kyc_status_named(name@),
                None => KycStatus::Pending,
            },
    {
        match recorded {
            Some(name) => Self::from_str(name),
            None => KycStatus::Pending,
        }
    }
}

/// A request to change the review status of a user.
#[derive(Debug, Clone, PartialEq, Eq)]
pub struct KycUpdateRequest {
    pub user_id: String,
}

/// The counters of the dashboard.
#[derive(Debug, Clone, Copy, PartialEq, Eq)]
pub struct DashboardStats {
    pub total_users: i64,
    pub total_payments: i64,
    pub total_transfers: i64,
    pub total_withdrawals: i64,
    pub active_merchants: i64,
}

/// The health of the system: the database, and the services that run.
#[derive(Debug, Clone, PartialEq, Eq)]
pub struct SystemHealth {
    pub database: String,
    pub services: Vec<String>,
}

/// The counters of a system that has counted nothing yet.
pub fn get_dashboard_stats() -> (stats: DashboardStats)
    ensures
        stats == (DashboardStats {
            total_users: 0,
            total_payments: 0,
            total_transfers: 0,
            total_withdrawals: 0,
            active_merchants: 0,
        }),
{
    DashboardStats {
        total_users: 0,
        total_payments: 0,
        total_transfers: 0,
        total_withdrawals: 0,
        active_merchants: 0,
    }
}

/// The health report: a healthy database and the two services.
pub fn get_system_health() -> (health: SystemHealth)
    ensures
        health.database@ == "healthy"@,
        health.services@.len() == 2,
        health.services@[0]@ == "identity"@,
        health.services@[1]@ == "payment"@,
{
    let mut services: Vec<String> = Vec::new();
    services.push("identity".to_owned());
    services.push("payment".to_owned());
    SystemHealth { database: "healthy".to_owned(), services }
}

} // verus!
