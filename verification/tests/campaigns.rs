use crowdvote::errors::{CoreError, ErrorClass};
use crowdvote::store::Ledger;

#[test]
fn test_create_campaign() {
    let mut ledger = Ledger::new();
    let created = ledger.create_campaign(
        1,
        10,
        "Test Campaign".to_string(),
        "This is a test description".to_string(),
        1000,
    );
    assert_eq!(created, Ok(1));

    let campaign = ledger.get_campaign(1).unwrap();
    assert_eq!(campaign.name, "Test Campaign");
    assert_eq!(campaign.description, "This is a test description");
    assert_eq!(campaign.target_amount, 1000);
    assert_eq!(campaign.current_funds, 0);

    println!("Campaign created successfully!");
}

#[test]
fn test_create_campaign_records_creator() {
    let mut ledger = Ledger::new();
    assert_eq!(
        ledger.create_campaign(5, 77, "relief fund".to_string(), "flood relief".to_string(), 50),
        Ok(5)
    );
    assert_eq!(ledger.get_campaign(5).unwrap().creator, 77);
}

#[test]
fn test_campaign_name_too_long() {
    let mut ledger = Ledger::new();
    let r = ledger.create_campaign(1, 10, "x".repeat(65), "short".to_string(), 1000);
    assert_eq!(r, Err(CoreError::FieldTooLong));
    assert_eq!(CoreError::FieldTooLong.class(), ErrorClass::Validation);
    assert!(ledger.get_campaign(1).is_none());
}

#[test]
fn test_campaign_name_at_limit() {
    let mut ledger = Ledger::new();
    let r = ledger.create_campaign(1, 10, "x".repeat(64), "y".repeat(128), 1000);
    assert_eq!(r, Ok(1));
}

#[test]
fn test_campaign_description_too_long() {
    let mut ledger = Ledger::new();
    let r = ledger.create_campaign(1, 10, "short".to_string(), "y".repeat(129), 1000);
    assert_eq!(r, Err(CoreError::FieldTooLong));
}

#[test]
fn test_campaign_duplicate_id() {
    let mut ledger = Ledger::new();
    assert_eq!(
        ledger.create_campaign(1, 10, "first".to_string(), "one".to_string(), 10),
        Ok(1)
    );
    let r = ledger.create_campaign(1, 11, "second".to_string(), "two".to_string(), 20);
    assert_eq!(r, Err(CoreError::AllocationError));
    assert_eq!(CoreError::AllocationError.class(), ErrorClass::State);
    // the first record stands untouched
    let campaign = ledger.get_campaign(1).unwrap();
    assert_eq!(campaign.creator, 10);
    assert_eq!(campaign.name, "first");
}

#[test]
fn test_zero_target_accepted() {
    let mut ledger = Ledger::new();
    assert_eq!(
        ledger.create_campaign(2, 10, "open ended".to_string(), "no goal".to_string(), 0),
        Ok(2)
    );
    assert_eq!(ledger.get_campaign(2).unwrap().target_amount, 0);
}
