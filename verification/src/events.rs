//! The kinds of lending event.

use vstd::prelude::*;
use crate::api_error::{ApiError, ApiErrorView};
use crate::safe_math::{decimal_parsed, Decimal};

verus! {

/// The kind of a lending event.
#[derive(Debug, Clone, Copy, PartialEq, Eq, Structural)]
pub enum EventType {
    Deposit,
    Borrow,
    Repay,
    Liquidation,
    InterestAccrual,
}

/// The kind that a lower-case name stands for.
pub open spec fn event_type_named(name: Seq<char>) -> Option<EventType> {
    if name == "deposit"@ {
        Some(EventType::Deposit)
    } else if name == "borrow"@ {
        Some(EventType::Borrow)
    } else if name == "repay"@ {
        Some(EventType::Repay)
    } else if name == "liquidation"@ {
        Some(EventType::Liquidation)
    } else if name == "interest_accrual"@ {
        Some(EventType::InterestAccrual)
    } else {
        None
    }
}

impl EventType {
    /// The kind that a lower-case name stands for.
    pub fn from_name(name: &str) -> (kind: Option<EventType>)
        ensures
            kind == event_type_named(name@),
    {
        let name = name.to_owned();
        if name == "deposit".to_owned() {
            Some(EventType::Deposit)
        } else if name == "borrow".to_owned() {
            Some(EventType::Borrow)
        } else if name == "repay".to_owned() {
            Some(EventType::Repay)
        } else if name == "liquidation".to_owned() {
            Some(EventType::Liquidation)
        } else if name == "interest_accrual".to_owned() {
            Some(EventType::InterestAccrual)
        } else {
            None
        }
    }
}

/// A lending event as the store holds it: the amount is text.
#[derive(Debug, Clone, PartialEq, Eq)]
pub struct LendingEventRow {
    pub id: u128,
    pub event_type: EventType,
    pub user_id: u128,
    pub plan_id: Option<u128>,
    pub asset_code: String,
    pub amount: String,
    pub metadata: String,
    pub transaction_hash: Option<String>,
    pub block_number: Option<i64>,
    pub event_timestamp: i64,
    pub created_at: i64,
}

/// A lending event: who did what to which plan, for how much, and when.
/// The metadata is the JSON text that describes the particular kind.
#[derive(Debug, Clone, PartialEq, Eq)]
pub struct LendingEvent {
    pub id: u128,
    pub event_type: EventType,
    pub user_id: u128,
    pub plan_id: Option<u128>,
    pub asset_code: String,
    pub amount: Decimal,
    pub metadata: String,
    pub transaction_hash: Option<String>,
    pub block_number: Option<i64>,
    pub event_timestamp: i64,
    pub created_at: i64,
}

/// Whether an event is the row with its amount read as a decimal.
pub open spec fn is_event_of(event: LendingEvent, row: LendingEventRow) -> bool {
    &&& event.id == row.id
    &&& event.event_type == row.event_type
    &&& event.user_id == row.user_id
    &&& event.plan_id == row.plan_id
    &&& event.asset_code == row.asset_code
    &&& decimal_parsed(row.amount@) == Some(event.amount@)
    &&& event.metadata == row.metadata
    &&& event.transaction_hash == row.transaction_hash
    &&& event.block_number == row.block_number
    &&& event.event_timestamp == row.event_timestamp
    &&& event.created_at == row.created_at
}

impl LendingEvent {
    /// Reads an event out of a stored row. A row whose amount is no number
    /// is an `Internal` error.
    pub fn try_from(row: LendingEventRow) -> (r: Result<LendingEvent, ApiError>)
        ensures
            match r {
                Ok(event) => is_event_of(event, row),
                Err(e) => decimal_parsed(row.amount@) is None && e@ == ApiErrorView::Internal(
                    "Failed to parse amount"@,
                ),
            },
    {
        let amount = match Decimal::parse_amount(row.amount.as_str()) {
            Ok(amount) => amount,
            Err(e) => {
                return Err(e);
            },
        };
        Ok(
            LendingEvent {
                id: row.id,
                event_type: row.event_type,
                user_id: row.user_id,
                plan_id: row.plan_id,
                asset_code: row.asset_code,
                amount,
                metadata: row.metadata,
                transaction_hash: row.transaction_hash,
                block_number: row.block_number,
                event_timestamp: row.event_timestamp,
                created_at: row.created_at,
            },
        )
    }
}

/// Reads lending events out of what the store returns.
pub struct EventService;

impl EventService {
    /// Reads the events out of the rows of a query, in their order. One row
    /// whose amount is no number fails the whole listing.
    pub fn events_from_rows(rows: Vec<LendingEventRow>) -> (r: Result<Vec<LendingEvent>, ApiError>)
        ensures
            match r {
                Ok(events) => events@.len() == rows@.len() && forall|i: int|
                    0 <= i < rows@.len() ==> is_event_of(#[trigger] events@[i], rows@[i]),
                Err(e) => e@ == ApiErrorView::Internal("Failed to parse amount"@) && exists|i: int|
                    0 <= i < rows@.len() && decimal_parsed((#[trigger] rows@[i]).amount@) is None,
            },
    {
        let ghost all = rows@;
        let mut rest = rows;
        let mut events: Vec<LendingEvent> = Vec::new();
        while rest.len() > 0
            invariant
                all == rows@,
                events@.len() + rest@.len() == all.len(),
                rest@ == all.skip(events@.len() as int),
                forall|j: int| 0 <= j < events@.len() ==> is_event_of(#[trigger] events@[j], all[j]),
            decreases rest.len(),
        {
            let ghost done = events@.len() as int;
            let row = rest.remove(0);
            assert(row == all[done]);
            assert(rest@ =~= all.skip(done + 1));
            match LendingEvent::try_from(row) {
                Ok(event) => {
                    events.push(event);
                },
                Err(e) => {
                    assert(decimal_parsed(rows@[done].amount@) is None);
                    return Err(e);
                },
            }
        }
        Ok(events)
    }
}

} // verus!