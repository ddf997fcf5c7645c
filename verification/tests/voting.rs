use crowdvote::errors::{CoreError, ErrorClass};
use crowdvote::store::Ledger;
use crowdvote::voting::{compute_reward, reward_outcome};

const POOL: u64 = 100;

/// One campaign (id 1) funded to 1000, of which donor 55 gave 250, and one
/// proposal (id 20) by proposer 30, open from time 100 to 150.
fn funded_ledger() -> Ledger {
    let mut ledger = Ledger::new();
    ledger
        .create_campaign(1, 10, "fund".to_string(), "a campaign".to_string(), 1000)
        .unwrap();
    ledger.record_donation(100, 1, 55, 250).unwrap();
    ledger.record_donation(101, 1, 56, 750).unwrap();
    ledger
        .create_proposal(20, 1, 30, "spend it".to_string(), 100, 50)
        .unwrap();
    ledger
}

#[test]
fn test_proposal_window_from_duration() {
    let ledger = funded_ledger();
    let proposal = ledger.get_proposal(20).unwrap();
    assert_eq!(proposal.end_time, 150);
    assert_eq!(proposal.yes_votes, 0);
    assert_eq!(proposal.no_votes, 0);
    assert!(!proposal.executed);
    assert_eq!(proposal.campaign, 1);
    assert_eq!(proposal.proposer, 30);
}

#[test]
fn test_invalid_duration_rejected() {
    let mut ledger = funded_ledger();
    assert_eq!(
        ledger.create_proposal(21, 1, 30, "late".to_string(), 100, 0),
        Err(CoreError::InvalidDuration)
    );
    assert_eq!(
        ledger.create_proposal(21, 1, 30, "late".to_string(), 100, -5),
        Err(CoreError::InvalidDuration)
    );
    assert_eq!(CoreError::InvalidDuration.class(), ErrorClass::Validation);
    assert!(ledger.get_proposal(21).is_none());
}

#[test]
fn test_proposal_end_time_overflow() {
    let mut ledger = funded_ledger();
    assert_eq!(
        ledger.create_proposal(21, 1, 30, "far".to_string(), i64::MAX, 1),
        Err(CoreError::Overflow)
    );
}

#[test]
fn test_proposal_missing_campaign() {
    let mut ledger = funded_ledger();
    assert_eq!(
        ledger.create_proposal(21, 9, 30, "ghost".to_string(), 100, 50),
        Err(CoreError::NotFound)
    );
}

#[test]
fn test_proposal_duplicate_id() {
    let mut ledger = funded_ledger();
    assert_eq!(
        ledger.create_proposal(20, 1, 30, "again".to_string(), 100, 50),
        Err(CoreError::AllocationError)
    );
}

#[test]
fn test_proposal_description_too_long() {
    let mut ledger = funded_ledger();
    assert_eq!(
        ledger.create_proposal(21, 1, 30, "y".repeat(129), 100, 50),
        Err(CoreError::FieldTooLong)
    );
}

#[test]
fn test_vote_after_end_fails_and_changes_nothing() {
    let mut ledger = funded_ledger();
    // the window closes exactly at end_time
    let r = ledger.cast_vote(20, 55, true, 250, 150, POOL);
    assert_eq!(r, Err(CoreError::VotingClosed));
    assert_eq!(CoreError::VotingClosed.class(), ErrorClass::State);
    let r = ledger.cast_vote(20, 55, false, 250, 7000, POOL);
    assert_eq!(r, Err(CoreError::VotingClosed));
    let proposal = ledger.get_proposal(20).unwrap();
    assert_eq!(proposal.yes_votes, 0);
    assert_eq!(proposal.no_votes, 0);
}

#[test]
fn test_vote_yes_increments_only_yes() {
    let mut ledger = funded_ledger();
    let result = ledger.cast_vote(20, 55, true, 250, 149, POOL).unwrap();
    assert_eq!(result.yes_votes, 1);
    assert_eq!(result.no_votes, 0);
    let proposal = ledger.get_proposal(20).unwrap();
    assert_eq!(proposal.yes_votes, 1);
    assert_eq!(proposal.no_votes, 0);
}

#[test]
fn test_vote_no_increments_only_no() {
    let mut ledger = funded_ledger();
    let result = ledger.cast_vote(20, 56, false, 750, 100, POOL).unwrap();
    assert_eq!(result.yes_votes, 0);
    assert_eq!(result.no_votes, 1);
    let proposal = ledger.get_proposal(20).unwrap();
    assert_eq!(proposal.yes_votes, 0);
    assert_eq!(proposal.no_votes, 1);
}

#[test]
fn test_reward_is_floored_share_of_pool() {
    let mut ledger = funded_ledger();
    // 250 / 1000 of a pool of 100, floored: exactly 25
    let result = ledger.cast_vote(20, 55, true, 250, 120, POOL).unwrap();
    assert_eq!(result.reward, 25);
    assert_eq!(result.recipient, 55);
}

#[test]
fn test_reward_deterministic_across_runs() {
    for _ in 0..3 {
        assert_eq!(compute_reward(250, 1000, POOL), Ok(25));
    }
    // floor rounding, never nearest
    assert_eq!(compute_reward(999, 1000, POOL), Ok(99));
    assert_eq!(compute_reward(1, 1000, POOL), Ok(0));
    assert_eq!(compute_reward(1000, 1000, POOL), Ok(100));
    // the pool is a policy parameter, not a constant of the library
    assert_eq!(compute_reward(250, 1000, 1_000_000), Ok(250_000));
}

#[test]
fn test_vote_on_unfunded_campaign_is_division_error() {
    let mut ledger = Ledger::new();
    ledger
        .create_campaign(1, 10, "empty".to_string(), "no funds yet".to_string(), 1000)
        .unwrap();
    ledger
        .create_proposal(20, 1, 30, "premature".to_string(), 100, 50)
        .unwrap();
    let r = ledger.cast_vote(20, 55, true, 0, 120, POOL);
    assert_eq!(r, Err(CoreError::DivisionByZero));
    assert_eq!(CoreError::DivisionByZero.class(), ErrorClass::Arithmetic);
    assert_eq!(ledger.get_proposal(20).unwrap().yes_votes, 0);
}

#[test]
fn test_compute_reward_zero_funds() {
    assert_eq!(compute_reward(0, 0, POOL), Err(CoreError::DivisionByZero));
    assert_eq!(compute_reward(250, 0, POOL), Err(CoreError::DivisionByZero));
}

#[test]
fn test_compute_reward_quotient_overflow() {
    // a claimed stake far beyond the fund pushes the quotient out of range
    assert_eq!(compute_reward(u64::MAX, 1, u64::MAX), Err(CoreError::Overflow));
    let mut ledger = funded_ledger();
    // funds are 1000 here, so a stake of u64::MAX with a full pool overflows
    let r = ledger.cast_vote(20, 55, true, u64::MAX, 120, u64::MAX);
    assert_eq!(r, Err(CoreError::Overflow));
    assert_eq!(ledger.get_proposal(20).unwrap().yes_votes, 0);
}

#[test]
fn test_vote_missing_proposal() {
    let mut ledger = funded_ledger();
    assert_eq!(ledger.cast_vote(99, 55, true, 250, 120, POOL), Err(CoreError::NotFound));
}

#[test]
fn test_overlapping_proposals_coexist() {
    let mut ledger = funded_ledger();
    // a second proposal for the same campaign, window overlapping the first
    assert_eq!(
        ledger.create_proposal(21, 1, 31, "also spend it".to_string(), 120, 100),
        Ok(21)
    );
    // both are open at time 130 and tally independently
    let first = ledger.cast_vote(20, 55, true, 250, 130, POOL).unwrap();
    let second = ledger.cast_vote(21, 55, false, 250, 130, POOL).unwrap();
    assert_eq!(first.yes_votes, 1);
    assert_eq!(second.no_votes, 1);
    assert_eq!(ledger.get_proposal(20).unwrap().yes_votes, 1);
    assert_eq!(ledger.get_proposal(20).unwrap().no_votes, 0);
    assert_eq!(ledger.get_proposal(21).unwrap().yes_votes, 0);
    assert_eq!(ledger.get_proposal(21).unwrap().no_votes, 1);
}

#[test]
fn test_mark_executed_authorization_and_latch() {
    let mut ledger = funded_ledger();
    // only the proposer may mark it, and only after closure
    assert_eq!(ledger.mark_executed(20, 31, 200), Err(CoreError::Unauthorized));
    assert_eq!(CoreError::Unauthorized.class(), ErrorClass::State);
    assert_eq!(ledger.mark_executed(20, 30, 149), Err(CoreError::VotingOpen));
    assert_eq!(ledger.mark_executed(20, 30, 150), Ok(()));
    assert!(ledger.get_proposal(20).unwrap().executed);
    // the latch never fires twice
    assert_eq!(ledger.mark_executed(20, 30, 200), Err(CoreError::AlreadyExecuted));
    assert_eq!(ledger.mark_executed(99, 30, 200), Err(CoreError::NotFound));
}

#[test]
fn test_reward_outcome_reporting() {
    assert_eq!(reward_outcome(true), Ok(()));
    assert_eq!(reward_outcome(false), Err(CoreError::RewardTransferFailed));
    assert_eq!(CoreError::RewardTransferFailed.class(), ErrorClass::Collaborator);
}
