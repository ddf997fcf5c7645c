use crowdvote::errors::{CoreError, ErrorClass};
use crowdvote::store::Ledger;

fn ledger_with_campaign(id: u64) -> Ledger {
    let mut ledger = Ledger::new();
    ledger
        .create_campaign(id, 10, "fund".to_string(), "a campaign".to_string(), 1000)
        .unwrap();
    ledger
}

#[test]
fn test_zero_donation_rejected() {
    let mut ledger = ledger_with_campaign(1);
    let r = ledger.record_donation(100, 1, 55, 0);
    assert_eq!(r, Err(CoreError::InvalidAmount));
    assert_eq!(CoreError::InvalidAmount.class(), ErrorClass::Validation);
    assert_eq!(ledger.get_campaign(1).unwrap().current_funds, 0);
    assert!(ledger.get_donation(100).is_none());
}

#[test]
fn test_unit_donation_increments_by_one() {
    let mut ledger = ledger_with_campaign(1);
    assert_eq!(ledger.record_donation(100, 1, 55, 1), Ok(100));
    assert_eq!(ledger.get_campaign(1).unwrap().current_funds, 1);
}

#[test]
fn test_funds_equal_sum_of_donations() {
    let mut ledger = ledger_with_campaign(1);
    ledger
        .create_campaign(2, 11, "other".to_string(), "unrelated".to_string(), 500)
        .unwrap();
    assert_eq!(ledger.record_donation(100, 1, 55, 5), Ok(100));
    assert_eq!(ledger.record_donation(101, 1, 56, 7), Ok(101));
    assert_eq!(ledger.record_donation(102, 1, 55, 11), Ok(102));
    // a donation to another campaign never leaks into this total
    assert_eq!(ledger.record_donation(103, 2, 57, 1000), Ok(103));
    assert_eq!(ledger.get_campaign(1).unwrap().current_funds, 5 + 7 + 11);
    assert_eq!(ledger.get_campaign(2).unwrap().current_funds, 1000);
}

#[test]
fn test_n_equal_donations_accumulate_exactly() {
    let mut ledger = ledger_with_campaign(1);
    let n: u64 = 8;
    let amount: u64 = 3;
    for caller in 0..n {
        assert_eq!(ledger.record_donation(200 + caller, 1, caller, amount), Ok(200 + caller));
    }
    assert_eq!(ledger.get_campaign(1).unwrap().current_funds, n * amount);
}

#[test]
fn test_donation_record_is_kept() {
    let mut ledger = ledger_with_campaign(1);
    ledger.record_donation(100, 1, 55, 42).unwrap();
    let donation = ledger.get_donation(100).unwrap();
    assert_eq!(donation.campaign, 1);
    assert_eq!(donation.donor, 55);
    assert_eq!(donation.amount, 42);
}

#[test]
fn test_donated_by_sums_own_contributions() {
    let mut ledger = ledger_with_campaign(1);
    ledger
        .create_campaign(2, 11, "other".to_string(), "unrelated".to_string(), 500)
        .unwrap();
    ledger.record_donation(100, 1, 55, 5).unwrap();
    ledger.record_donation(101, 1, 56, 7).unwrap();
    ledger.record_donation(102, 1, 55, 11).unwrap();
    ledger.record_donation(103, 2, 55, 100).unwrap();
    assert_eq!(ledger.donated_by(1, 55), 16);
    assert_eq!(ledger.donated_by(1, 56), 7);
    assert_eq!(ledger.donated_by(1, 57), 0);
    assert_eq!(ledger.donated_by(2, 55), 100);
    assert_eq!(ledger.donated_by(3, 55), 0);
}

#[test]
fn test_donation_duplicate_id() {
    let mut ledger = ledger_with_campaign(1);
    ledger.record_donation(100, 1, 55, 5).unwrap();
    let r = ledger.record_donation(100, 1, 56, 7);
    assert_eq!(r, Err(CoreError::AllocationError));
    // neither the record nor the total moved
    assert_eq!(ledger.get_campaign(1).unwrap().current_funds, 5);
    assert_eq!(ledger.get_donation(100).unwrap().donor, 55);
}

#[test]
fn test_donation_missing_campaign() {
    let mut ledger = ledger_with_campaign(1);
    let r = ledger.record_donation(100, 9, 55, 5);
    assert_eq!(r, Err(CoreError::NotFound));
    assert_eq!(CoreError::NotFound.class(), ErrorClass::State);
}

#[test]
fn test_donation_overflow_rejected_not_wrapped() {
    let mut ledger = ledger_with_campaign(1);
    assert_eq!(ledger.record_donation(100, 1, 55, u64::MAX), Ok(100));
    let r = ledger.record_donation(101, 1, 56, 1);
    assert_eq!(r, Err(CoreError::Overflow));
    assert_eq!(CoreError::Overflow.class(), ErrorClass::Arithmetic);
    // the total still equals the sum of the committed donations
    assert_eq!(ledger.get_campaign(1).unwrap().current_funds, u64::MAX);
    assert!(ledger.get_donation(101).is_none());
}
