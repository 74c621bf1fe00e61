use inheritx_backend::api_error::ApiError;
use inheritx_backend::event_handlers::{default_limit, parse_event_type, EventQueryParams};
use inheritx_backend::events::{EventService, EventType, LendingEventRow};

#[test]
fn test_parse_event_type() {
    assert!(matches!(
        parse_event_type("deposit").unwrap(),
        EventType::Deposit
    ));
    assert!(matches!(
        parse_event_type("BORROW").unwrap(),
        EventType::Borrow
    ));
    assert!(matches!(
        parse_event_type("Repay").unwrap(),
        EventType::Repay
    ));
    assert!(matches!(
        parse_event_type("liquidation").unwrap(),
        EventType::Liquidation
    ));
    assert!(matches!(
        parse_event_type("interest_accrual").unwrap(),
        EventType::InterestAccrual
    ));
    assert!(parse_event_type("invalid").is_err());
}

#[test]
fn test_default_limit() {
    assert_eq!(default_limit(), 50);
}

#[test]
fn parse_event_type_rejection_repeats_the_name_as_given() {
    let err = parse_event_type("Withdraw").unwrap_err();
    assert_eq!(
        err,
        ApiError::BadRequest(
            "Invalid event type: Withdraw. Valid types: deposit, borrow, repay, liquidation, interest_accrual"
                .to_string()
        )
    );
    assert_eq!(err.status_code(), 400);
}

#[test]
fn parse_event_type_is_exact_about_the_name() {
    assert!(parse_event_type("").is_err());
    assert!(parse_event_type(" deposit").is_err());
    assert!(parse_event_type("deposits").is_err());
    assert!(parse_event_type("interest-accrual").is_err());
    assert_eq!(parse_event_type("INTEREST_ACCRUAL").unwrap(), EventType::InterestAccrual);
    assert_eq!(parse_event_type("LiQuIdAtIoN").unwrap(), EventType::Liquidation);
}

#[test]
fn event_types_are_read_from_lower_case_names_only() {
    assert_eq!(EventType::from_name("deposit"), Some(EventType::Deposit));
    assert_eq!(EventType::from_name("borrow"), Some(EventType::Borrow));
    assert_eq!(EventType::from_name("repay"), Some(EventType::Repay));
    assert_eq!(EventType::from_name("liquidation"), Some(EventType::Liquidation));
    assert_eq!(EventType::from_name("interest_accrual"), Some(EventType::InterestAccrual));
    assert_eq!(EventType::from_name("Deposit"), None);
    assert_eq!(EventType::from_name(""), None);
}

#[test]
fn query_params_cap_the_page_size() {
    let mut params = EventQueryParams::new();
    assert_eq!(params.limit, 50);
    assert_eq!(params.offset, 0);
    assert_eq!(params.event_type, None);
    assert_eq!(params.effective_limit(), 50);
    params.limit = 100;
    assert_eq!(params.effective_limit(), 100);
    params.limit = 101;
    assert_eq!(params.effective_limit(), 100);
    params.limit = -3;
    assert_eq!(params.effective_limit(), -3);
}

#[test]
fn query_params_read_the_event_type() {
    let mut params = EventQueryParams::new();
    assert_eq!(params.parsed_event_type(), Ok(None));
    params.event_type = Some("Borrow".to_string());
    assert_eq!(params.parsed_event_type(), Ok(Some(EventType::Borrow)));
    params.event_type = Some("loan".to_string());
    assert_eq!(params.parsed_event_type().unwrap_err().status_code(), 400);
}

#[test]
fn events_are_read_out_of_rows_in_order() {
    let row = |id: u128, amount: &str| LendingEventRow {
        id,
        event_type: EventType::Repay,
        user_id: 7,
        plan_id: Some(9),
        asset_code: "USDC".to_string(),
        amount: amount.to_string(),
        metadata: "{}".to_string(),
        transaction_hash: None,
        block_number: Some(12),
        event_timestamp: 100,
        created_at: 101,
    };
    let events = EventService::events_from_rows(vec![row(1, "500.00"), row(2, "25.5")]).unwrap();
    assert_eq!(events.len(), 2);
    assert_eq!((events[0].id, events[0].amount.mantissa(), events[0].amount.scale()), (1, 50000, 2));
    assert_eq!((events[1].id, events[1].amount.mantissa(), events[1].amount.scale()), (2, 255, 1));
    assert_eq!(events[1].asset_code, "USDC");
    assert_eq!(events[1].plan_id, Some(9));
    assert_eq!(events[1].block_number, Some(12));
    assert_eq!(EventService::events_from_rows(vec![]), Ok(vec![]));
    assert_eq!(
        EventService::events_from_rows(vec![row(1, "1"), row(2, "lots"), row(3, "3")]),
        Err(ApiError::Internal("Failed to parse amount".to_string()))
    );
}
