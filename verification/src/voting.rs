//! The proposal and voting engine: time-bounded proposals, yes/no tallies,
//! and the proportional reward a vote earns.
//!
//! The reward is exact integer ratio arithmetic with floor rounding — never
//! floating point — so the result is reproducible bit for bit wherever it is
//! re-executed.  The actual asset transfer belongs to the host; the library
//! computes the quantity and, afterwards, classifies the transfer's outcome
//! without ever rolling back a committed tally.

use vstd::arithmetic::div_mod::{lemma_div_is_ordered, lemma_div_multiples_vanish};
use vstd::arithmetic::mul::{lemma_mul_inequality, lemma_mul_upper_bound};
use vstd::prelude::*;

use crate::entities::{Proposal, VoteResult, MAX_DESC_LEN};
use crate::errors::CoreError;
use crate::store::Ledger;

verus! {

/// The floor of `voter_donation / current_funds`, scaled by `reward_pool`:
/// the exact reward a vote earns.  Meaningful only for a funded campaign.
pub open spec fn reward_quotient(voter_donation: u64, current_funds: u64, reward_pool: u64)
    -> int
    recommends
        current_funds > 0,
{
    (voter_donation * reward_pool) / (current_funds as int)
}

/// Computes the proportional reward for a voter whose committed stake is
/// `voter_donation`, out of a campaign holding `current_funds`, against the
/// configured `reward_pool` policy constant.
///
/// An empty fund is rejected with `DivisionByZero` — a share of nothing is
/// undefined, never silently zero — and a quotient beyond the representable
/// range with `Overflow`.  Whenever the stake does not exceed the fund, the
/// share is in `[0, 1]`, the computation succeeds and the reward never
/// exceeds the pool.
pub fn compute_reward(voter_donation: u64, current_funds: u64, reward_pool: u64) -> (r: Result<
    u64,
    CoreError,
>)
    ensures
        r is Ok <==> current_funds > 0 && reward_quotient(
            voter_donation,
            current_funds,
            reward_pool,
        ) <= u64::MAX,
        r matches Ok(reward) ==> reward == reward_quotient(
            voter_donation,
            current_funds,
            reward_pool,
        ),
        current_funds == 0 ==> r == Err::<u64, CoreError>(CoreError::DivisionByZero),
        r is Err && current_funds > 0 ==> r == Err::<u64, CoreError>(CoreError::Overflow),
        current_funds > 0 && voter_donation <= current_funds ==> (r matches Ok(reward) && reward
            <= reward_pool),
{
    if current_funds == 0 {
        return Err(CoreError::DivisionByZero);
    }
    proof {
        lemma_mul_upper_bound(
            voter_donation as int,
            u64::MAX as int,
            reward_pool as int,
            u64::MAX as int,
        );
        if voter_donation <= current_funds {
            // stake / fund is a fraction in [0, 1]: the reward cannot
            // exceed the pool.
            lemma_mul_inequality(voter_donation as int, current_funds as int, reward_pool as int);
            lemma_div_is_ordered(
                voter_donation as int * reward_pool as int,
                current_funds as int * reward_pool as int,
                current_funds as int,
            );
            lemma_div_multiples_vanish(reward_pool as int, current_funds as int);
        }
    }
    let numerator: u128 = (voter_donation as u128) * (reward_pool as u128);
    let quotient: u128 = numerator / (current_funds as u128);
    if quotient > u64::MAX as u128 {
        return Err(CoreError::Overflow);
    }
    Ok(quotient as u64)
}

/// Classifies the host's report of the reward transfer: the transfer either
/// went through or failed with `RewardTransferFailed`.  The committed vote
/// tally stands either way; this touches no ledger state.
pub fn reward_outcome(transfer_succeeded: bool) -> (r: Result<(), CoreError>)
    ensures
        r is Ok <==> transfer_succeeded,
        !transfer_succeeded ==> r == Err::<(), CoreError>(CoreError::RewardTransferFailed),
{
    if transfer_succeeded {
        Ok(())
    } else {
        Err(CoreError::RewardTransferFailed)
    }
}

impl Ledger {
    /// Whether a request to create proposal `proposal_id` succeeds against
    /// this state.  Nothing here reads any other proposal's window: open
    /// proposals for one campaign may overlap freely.
    pub open spec fn can_create_proposal(
        self,
        proposal_id: u64,
        campaign_id: u64,
        description: Seq<char>,
        now: i64,
        duration: i64,
    ) -> bool {
        &&& 0 < duration
        &&& description.len() <= MAX_DESC_LEN
        &&& self.has_campaign(campaign_id)
        &&& !self.has_proposal(proposal_id)
        &&& now + duration <= i64::MAX
    }

    /// The error a refused proposal creation reports.
    pub open spec fn proposal_error(
        self,
        proposal_id: u64,
        campaign_id: u64,
        description: Seq<char>,
        now: i64,
        duration: i64,
    ) -> CoreError {
        if duration <= 0 {
            CoreError::InvalidDuration
        } else if description.len() > MAX_DESC_LEN {
            CoreError::FieldTooLong
        } else if !self.has_campaign(campaign_id) {
            CoreError::NotFound
        } else if self.has_proposal(proposal_id) {
            CoreError::AllocationError
        } else {
            CoreError::Overflow
        }
    }

    /// Creates a time-bounded proposal for a campaign, with a voting window
    /// closing at `now + duration`.
    ///
    /// A non-positive duration is a caller error (`InvalidDuration`), an
    /// over-long description `FieldTooLong`, a missing campaign `NotFound`,
    /// an identifier in use `AllocationError`, and a close time beyond the
    /// representable range `Overflow`.  On failure the state is untouched.
    pub fn create_proposal(
        &mut self,
        proposal_id: u64,
        campaign_id: u64,
        proposer: u64,
        description: String,
        now: i64,
        duration: i64,
    ) -> (r: Result<u64, CoreError>)
        requires
            old(self).wf(),
        ensures
            final(self).wf(),
            r is Ok <==> old(self).can_create_proposal(
                proposal_id,
                campaign_id,
                description@,
                now,
                duration,
            ),
            r matches Ok(got) ==> got == proposal_id,
            r matches Err(e) ==> e == old(self).proposal_error(
                proposal_id,
                campaign_id,
                description@,
                now,
                duration,
            ),
            r is Err ==> *final(self) == *old(self),
            r is Ok ==> final(self).proposals@ == old(self).proposals@.push(
                (Proposal {
                    id: proposal_id,
                    campaign: campaign_id,
                    proposer,
                    description,
                    yes_votes: 0,
                    no_votes: 0,
                    end_time: (now + duration) as i64,
                    executed: false,
                }),
            ),
            r is Ok ==> final(self).campaigns@ == old(self).campaigns@,
            r is Ok ==> final(self).donations@ == old(self).donations@,
    {
        if duration <= 0 {
            return Err(CoreError::InvalidDuration);
        }
        if description.as_str().unicode_len() > MAX_DESC_LEN {
            return Err(CoreError::FieldTooLong);
        }
        if self.find_campaign(campaign_id).is_none() {
            return Err(CoreError::NotFound);
        }
        if self.find_proposal(proposal_id).is_some() {
            return Err(CoreError::AllocationError);
        }
        if now > i64::MAX - duration {
            return Err(CoreError::Overflow);
        }
        let record = Proposal {
            id: proposal_id,
            campaign: campaign_id,
            proposer,
            description,
            yes_votes: 0,
            no_votes: 0,
            end_time: now + duration,
            executed: false,
        };
        self.proposals.push(record);
        proof {
            let ps = self.proposals@;
            let old_ps = old(self).proposals@;
            assert forall|i: int, j: int| 0 <= i < j < ps.len() implies #[trigger] ps[i].id
                != #[trigger] ps[j].id by {
                if j == ps.len() - 1 {
                    if old_ps[i].id == proposal_id {
                        assert(old(self).has_proposal(proposal_id));
                    }
                }
            }
            assert forall|cid: u64| old(self).has_campaign(cid) implies #[trigger] self
                .has_campaign(cid) by {
                let k = choose|k: int|
                    0 <= k < old(self).campaigns@.len() && #[trigger] old(self).campaigns@[k].id
                        == cid;
                assert(self.campaigns@[k].id == cid);
            }
            assert(self.funds_consistent());
        }
        Ok(proposal_id)
    }

    /// The tally a vote of `support` would raise, on the stored proposal
    /// `proposal_id`.
    pub open spec fn vote_tally(self, proposal_id: u64, support: bool) -> u64 {
        if support {
            self.proposal(proposal_id).yes_votes
        } else {
            self.proposal(proposal_id).no_votes
        }
    }

    /// The funds of the campaign the stored proposal `proposal_id` belongs
    /// to.
    pub open spec fn proposal_funds(self, proposal_id: u64) -> u64 {
        self.campaign(self.proposal(proposal_id).campaign).current_funds
    }

    /// Whether a vote on proposal `proposal_id` succeeds against this state
    /// at time `now`.
    pub open spec fn can_cast_vote(
        self,
        proposal_id: u64,
        support: bool,
        voter_donation: u64,
        now: i64,
        reward_pool: u64,
    ) -> bool {
        &&& self.has_proposal(proposal_id)
        &&& now < self.proposal(proposal_id).end_time
        &&& self.vote_tally(proposal_id, support) < u64::MAX
        &&& self.proposal_funds(proposal_id) > 0
        &&& reward_quotient(voter_donation, self.proposal_funds(proposal_id), reward_pool)
            <= u64::MAX
    }

    /// The error a refused vote reports.
    pub open spec fn vote_error(
        self,
        proposal_id: u64,
        support: bool,
        voter_donation: u64,
        now: i64,
        reward_pool: u64,
    ) -> CoreError {
        if !self.has_proposal(proposal_id) {
            CoreError::NotFound
        } else if now >= self.proposal(proposal_id).end_time {
            CoreError::VotingClosed
        } else if self.vote_tally(proposal_id, support) == u64::MAX {
            CoreError::Overflow
        } else if self.proposal_funds(proposal_id) == 0 {
            CoreError::DivisionByZero
        } else {
            CoreError::Overflow
        }
    }

    /// Casts a vote on an open proposal: raises exactly one of the two
    /// tallies by one and computes the voter's proportional reward out of
    /// the owning campaign's funds.
    ///
    /// After `end_time` the proposal is read-only: the vote fails with
    /// `VotingClosed` and no tally changes.  A vote against an unfunded
    /// campaign fails with `DivisionByZero`.  On any failure the state is
    /// untouched; on success only the voted proposal's tally changes, and
    /// the returned reward is owed to `voter` — the transfer itself is the
    /// host's to perform and its failure never undoes the tally.
    pub fn cast_vote(
        &mut self,
        proposal_id: u64,
        voter: u64,
        support: bool,
        voter_donation: u64,
        now: i64,
        reward_pool: u64,
    ) -> (r: Result<VoteResult, CoreError>)
        requires
            old(self).wf(),
        ensures
            final(self).wf(),
            r is Ok <==> old(self).can_cast_vote(proposal_id, support, voter_donation, now, reward_pool),
            r matches Err(e) ==> e == old(self).vote_error(
                proposal_id,
                support,
                voter_donation,
                now,
                reward_pool,
            ),
            r is Err ==> *final(self) == *old(self),
            r matches Ok(v) ==> v.recipient == voter && v.reward == reward_quotient(
                voter_donation,
                old(self).proposal_funds(proposal_id),
                reward_pool,
            ),
            r matches Ok(v) ==> v.yes_votes == old(self).proposal(proposal_id).yes_votes + if support {
                1int
            } else {
                0int
            },
            r matches Ok(v) ==> v.no_votes == old(self).proposal(proposal_id).no_votes + if support {
                0int
            } else {
                1int
            },
            r matches Ok(v) ==> final(self).proposals@ == old(self).proposals@.update(
                old(self).proposal_index(proposal_id),
                (Proposal {
                    yes_votes: v.yes_votes,
                    no_votes: v.no_votes,
                    ..old(self).proposal(proposal_id)
                }),
            ),
            r is Ok ==> final(self).campaigns@ == old(self).campaigns@,
            r is Ok ==> final(self).donations@ == old(self).donations@,
    {
        let pidx = match self.find_proposal(proposal_id) {
            Some(i) => i,
            None => {
                return Err(CoreError::NotFound);
            },
        };
        proof {
            self.lemma_proposal_index_of(proposal_id, pidx as int);
        }
        if now >= self.proposals[pidx].end_time {
            return Err(CoreError::VotingClosed);
        }
        let yes = self.proposals[pidx].yes_votes;
        let no = self.proposals[pidx].no_votes;
        if support && yes == u64::MAX || !support && no == u64::MAX {
            return Err(CoreError::Overflow);
        }
        let campaign_id = self.proposals[pidx].campaign;
        let cidx = match self.find_campaign(campaign_id) {
            Some(i) => i,
            None => {
                // unreachable: a well-formed store has no dangling
                // proposal reference
                proof {
                    assert(false);
                }
                return Err(CoreError::NotFound);
            },
        };
        proof {
            self.lemma_campaign_index_of(campaign_id, cidx as int);
        }
        let funds = self.campaigns[cidx].current_funds;
        let reward = match compute_reward(voter_donation, funds, reward_pool) {
            Ok(reward) => reward,
            Err(e) => {
                return Err(e);
            },
        };
        let slot = &mut self.proposals[pidx];
        if support {
            slot.yes_votes = yes + 1;
        } else {
            slot.no_votes = no + 1;
        }
        let result = VoteResult {
            yes_votes: if support { yes + 1 } else { yes },
            no_votes: if support { no } else { no + 1 },
            reward,
            recipient: voter,
        };
        proof {
            let ps = self.proposals@;
            let old_ps = old(self).proposals@;
            assert(ps =~= old_ps.update(
                pidx as int,
                (Proposal {
                    yes_votes: result.yes_votes,
                    no_votes: result.no_votes,
                    ..old_ps[pidx as int]
                }),
            ));
            assert forall|i: int, j: int| 0 <= i < j < ps.len() implies #[trigger] ps[i].id
                != #[trigger] ps[j].id by {
                assert(old_ps[i].id != old_ps[j].id);
            }
            assert forall|cid: u64| old(self).has_campaign(cid) implies #[trigger] self
                .has_campaign(cid) by {
                let k = choose|k: int|
                    0 <= k < old(self).campaigns@.len() && #[trigger] old(self).campaigns@[k].id
                        == cid;
                assert(self.campaigns@[k].id == cid);
            }
            assert(self.funds_consistent());
        }
        Ok(result)
    }

    /// Whether marking proposal `proposal_id` executed by `actor` at `now`
    /// succeeds against this state.
    pub open spec fn can_mark_executed(self, proposal_id: u64, actor: u64, now: i64) -> bool {
        &&& self.has_proposal(proposal_id)
        &&& actor == self.proposal(proposal_id).proposer
        &&& now >= self.proposal(proposal_id).end_time
        &&& !self.proposal(proposal_id).executed
    }

    /// The error a refused execution mark reports.
    pub open spec fn executed_error(self, proposal_id: u64, actor: u64, now: i64) -> CoreError {
        if !self.has_proposal(proposal_id) {
            CoreError::NotFound
        } else if actor != self.proposal(proposal_id).proposer {
            CoreError::Unauthorized
        } else if now < self.proposal(proposal_id).end_time {
            CoreError::VotingOpen
        } else {
            CoreError::AlreadyExecuted
        }
    }

    /// Latches a closed proposal's `executed` flag, once, on behalf of the
    /// proposer referenced at creation — no other identity may.
    ///
    /// The flag only ever transitions false to true, only after the voting
    /// window has closed, and never reverts.  On failure the state is
    /// untouched.
    pub fn mark_executed(&mut self, proposal_id: u64, actor: u64, now: i64) -> (r: Result<
        (),
        CoreError,
    >)
        requires
            old(self).wf(),
        ensures
            final(self).wf(),
            r is Ok <==> old(self).can_mark_executed(proposal_id, actor, now),
            r matches Err(e) ==> e == old(self).executed_error(proposal_id, actor, now),
            r is Err ==> *final(self) == *old(self),
            r is Ok ==> final(self).proposals@ == old(self).proposals@.update(
                old(self).proposal_index(proposal_id),
                (Proposal { executed: true, ..old(self).proposal(proposal_id) }),
            ),
            r is Ok ==> final(self).campaigns@ == old(self).campaigns@,
            r is Ok ==> final(self).donations@ == old(self).donations@,
    {
        let pidx = match self.find_proposal(proposal_id) {
            Some(i) => i,
            None => {
                return Err(CoreError::NotFound);
            },
        };
        proof {
            self.lemma_proposal_index_of(proposal_id, pidx as int);
        }
        if actor != self.proposals[pidx].proposer {
            return Err(CoreError::Unauthorized);
        }
        if now < self.proposals[pidx].end_time {
            return Err(CoreError::VotingOpen);
        }
        if self.proposals[pidx].executed {
            return Err(CoreError::AlreadyExecuted);
        }
        let slot = &mut self.proposals[pidx];
        slot.executed = true;
        proof {
            let ps = self.proposals@;
            let old_ps = old(self).proposals@;
            assert(ps =~= old_ps.update(
                pidx as int,
                (Proposal { executed: true, ..old_ps[pidx as int] }),
            ));
            assert forall|i: int, j: int| 0 <= i < j < ps.len() implies #[trigger] ps[i].id
                != #[trigger] ps[j].id by {
                assert(old_ps[i].id != old_ps[j].id);
            }
            assert forall|cid: u64| old(self).has_campaign(cid) implies #[trigger] self
                .has_campaign(cid) by {
                let k = choose|k: int|
                    0 <= k < old(self).campaigns@.len() && #[trigger] old(self).campaigns@[k].id
                        == cid;
                assert(self.campaigns@[k].id == cid);
            }
            assert(self.funds_consistent());
        }
        Ok(())
    }
}

} // verus!
