//! Laws of the ledger that span more than one operation, proved once and
//! for all over well-formed states.

use vstd::arithmetic::mul::lemma_mul_is_distributive_add;
use vstd::prelude::*;

use crate::entities::{Donation, Proposal};
use crate::errors::{CoreError, ErrorClass};
use crate::store::{donation_count, donation_sum, Ledger};

verus! {

/// In every well-formed state — and every operation of the library keeps
/// the state well-formed — a campaign's `current_funds` equals the exact
/// sum of all committed donation amounts referencing it: whatever sequence
/// of donations led here, the total never drifts and never double-counts.
pub proof fn lemma_funds_are_donation_sum(l: Ledger, campaign_id: u64)
    requires
        l.wf(),
        l.has_campaign(campaign_id),
    ensures
        l.campaign(campaign_id).current_funds == donation_sum(l.donations@, campaign_id),
{
    let i = l.campaign_index(campaign_id);
    assert(l.campaigns@[i].current_funds == donation_sum(l.donations@, l.campaigns@[i].id));
}

/// A donation log whose entries for one campaign all carry the same amount
/// sums to that amount times the number of entries.
proof fn lemma_donation_sum_uniform(dons: Seq<Donation>, campaign_id: u64, amount: u64)
    requires
        forall|i: int|
            0 <= i < dons.len() ==> ((#[trigger] dons[i]).campaign == campaign_id ==> dons[i].amount
                == amount),
    ensures
        donation_sum(dons, campaign_id) == amount * donation_count(dons, campaign_id),
    decreases dons.len(),
{
    if dons.len() == 0 {
        assert(amount * 0 == 0);
    } else {
        let prefix = dons.drop_last();
        assert forall|i: int|
            0 <= i < prefix.len() implies ((#[trigger] prefix[i]).campaign == campaign_id
            ==> prefix[i].amount == amount) by {
            assert(prefix[i] == dons[i]);
        }
        lemma_donation_sum_uniform(prefix, campaign_id, amount);
        lemma_mul_is_distributive_add(
            amount as int,
            donation_count(prefix, campaign_id),
            if dons.last().campaign == campaign_id {
                1int
            } else {
                0int
            },
        );
    }
}

/// Lost-update freedom, however donations interleave: when every committed
/// donation to a campaign carries the same amount `a` — as when `n`
/// independent callers each donate `a` — the campaign holds exactly
/// `a * n`, with `n` the number of committed donations.
pub proof fn lemma_uniform_donations_total(l: Ledger, campaign_id: u64, amount: u64)
    requires
        l.wf(),
        l.has_campaign(campaign_id),
        forall|i: int|
            0 <= i < l.donations@.len() ==> ((#[trigger] l.donations@[i]).campaign == campaign_id
                ==> l.donations@[i].amount == amount),
    ensures
        l.campaign(campaign_id).current_funds == amount * donation_count(
            l.donations@,
            campaign_id,
        ),
{
    lemma_funds_are_donation_sum(l, campaign_id);
    lemma_donation_sum_uniform(l.donations@, campaign_id, amount);
}

/// A zero donation is never accepted, whatever the state: it is refused as
/// a validation error — the caller must fix and retry — and specifically
/// with `InvalidAmount`.
pub proof fn lemma_zero_donation_rejected(l: Ledger, donation_id: u64, campaign_id: u64)
    ensures
        !l.can_record_donation(donation_id, campaign_id, 0),
        l.donation_error(donation_id, campaign_id, 0) == CoreError::InvalidAmount,
        CoreError::InvalidAmount.spec_class() == ErrorClass::Validation,
{
}

/// A unit donation is owed success whenever its campaign exists, its
/// identifier is free and the total has room: `record_donation` then
/// commits it and raises the campaign's funds by exactly one.
pub proof fn lemma_unit_donation_accepted(l: Ledger, donation_id: u64, campaign_id: u64)
    requires
        l.wf(),
        l.has_campaign(campaign_id),
        !l.has_donation(donation_id),
        l.campaign(campaign_id).current_funds < u64::MAX,
    ensures
        l.can_record_donation(donation_id, campaign_id, 1),
{
}

/// After its window closes a proposal is read-only: a vote at or past
/// `end_time` is refused as a state error, specifically `VotingClosed`,
/// and `cast_vote`'s contract leaves every tally as it was.
pub proof fn lemma_closed_vote_rejected(
    l: Ledger,
    proposal_id: u64,
    support: bool,
    voter_donation: u64,
    now: i64,
    reward_pool: u64,
)
    requires
        l.has_proposal(proposal_id),
        now >= l.proposal(proposal_id).end_time,
    ensures
        !l.can_cast_vote(proposal_id, support, voter_donation, now, reward_pool),
        l.vote_error(proposal_id, support, voter_donation, now, reward_pool)
            == CoreError::VotingClosed,
        CoreError::VotingClosed.spec_class() == ErrorClass::State,
{
}

/// A vote against an unfunded campaign is an arithmetic error, never an
/// undefined share: with zero funds, an otherwise open vote is refused
/// with `DivisionByZero`.
pub proof fn lemma_unfunded_vote_rejected(
    l: Ledger,
    proposal_id: u64,
    support: bool,
    voter_donation: u64,
    now: i64,
    reward_pool: u64,
)
    requires
        l.has_proposal(proposal_id),
        now < l.proposal(proposal_id).end_time,
        l.vote_tally(proposal_id, support) < u64::MAX,
        l.proposal_funds(proposal_id) == 0,
    ensures
        !l.can_cast_vote(proposal_id, support, voter_donation, now, reward_pool),
        l.vote_error(proposal_id, support, voter_donation, now, reward_pool)
            == CoreError::DivisionByZero,
        CoreError::DivisionByZero.spec_class() == ErrorClass::Arithmetic,
{
}

/// Proposals for one campaign do not exclude one another: after creating
/// `first` — whatever its voting window — a second proposal for the same
/// campaign can still be created at any time, with any window, under any
/// fresh identifier.  Nothing in [`Ledger::can_create_proposal`] relates
/// the two windows, so concurrently open votes coexist freely.
///
/// `l1` is the state a successful creation of `first` leaves behind, as
/// [`Ledger::create_proposal`] describes it.
pub proof fn lemma_overlapping_proposals(
    l0: Ledger,
    l1: Ledger,
    first: Proposal,
    second_id: u64,
    second_description: Seq<char>,
    now: i64,
    duration: i64,
)
    requires
        l0.wf(),
        l1.campaigns@ == l0.campaigns@,
        l1.proposals@ == l0.proposals@.push(first),
        l0.has_campaign(first.campaign),
        !l0.has_proposal(second_id),
        second_id != first.id,
        0 < duration,
        second_description.len() <= crate::entities::MAX_DESC_LEN,
        now + duration <= i64::MAX,
    ensures
        l1.can_create_proposal(second_id, first.campaign, second_description, now, duration),
{
    assert forall|cid: u64| l0.has_campaign(cid) implies #[trigger] l1.has_campaign(cid) by {
        let k = choose|k: int|
            0 <= k < l0.campaigns@.len() && #[trigger] l0.campaigns@[k].id == cid;
        assert(l1.campaigns@[k].id == cid);
    }
    if l1.has_proposal(second_id) {
        let k = choose|k: int|
            0 <= k < l1.proposals@.len() && #[trigger] l1.proposals@[k].id == second_id;
        if k < l0.proposals@.len() {
            assert(l0.proposals@[k].id == second_id);
            assert(l0.has_proposal(second_id));
        } else {
            assert(l1.proposals@[k] == first);
        }
    }
}

} // verus!
