//! The donation recorder: validates and records individual contributions
//! and drives the campaign's fund increment.
//!
//! A donation and its campaign's fund credit commit together or not at all:
//! no caller ever observes one without the other.

use vstd::prelude::*;

use crate::entities::{Campaign, Donation};
use crate::errors::CoreError;
use crate::store::{
    donation_sum, donor_sum, lemma_donation_sum_nonneg, lemma_donation_sum_push,
    lemma_donation_sum_take_le, lemma_donation_sum_unreferenced, lemma_donor_sum_le_donation_sum,
    lemma_donor_sum_take_succ, Ledger,
};

verus! {

impl Ledger {
    /// In a well-formed store, no campaign's donation sum can exceed the
    /// representable range: it either equals some stored campaign's
    /// `current_funds` or is zero.
    pub proof fn lemma_donation_sum_bounded(self, campaign_id: u64)
        requires
            self.wf(),
        ensures
            0 <= donation_sum(self.donations@, campaign_id) <= u64::MAX,
    {
        lemma_donation_sum_nonneg(self.donations@, campaign_id);
        if self.has_campaign(campaign_id) {
            let i = self.campaign_index(campaign_id);
            assert(self.campaigns@[i].current_funds == donation_sum(
                self.donations@,
                self.campaigns@[i].id,
            ));
        } else {
            assert forall|i: int|
                0 <= i < self.donations@.len() implies (#[trigger] self.donations@[i]).campaign
                != campaign_id by {
                if self.donations@[i].campaign == campaign_id {
                    assert(self.has_campaign(campaign_id));
                }
            }
            lemma_donation_sum_unreferenced(self.donations@, campaign_id);
        }
    }

    /// Whether a request to record donation `donation_id` of `amount` to
    /// campaign `campaign_id` succeeds against this state.
    pub open spec fn can_record_donation(
        self,
        donation_id: u64,
        campaign_id: u64,
        amount: u64,
    ) -> bool {
        &&& amount > 0
        &&& self.has_campaign(campaign_id)
        &&& !self.has_donation(donation_id)
        &&& self.campaign(campaign_id).current_funds + amount <= u64::MAX
    }

    /// The error a refused donation reports.
    pub open spec fn donation_error(self, donation_id: u64, campaign_id: u64, amount: u64)
        -> CoreError {
        if amount == 0 {
            CoreError::InvalidAmount
        } else if !self.has_campaign(campaign_id) {
            CoreError::NotFound
        } else if self.has_donation(donation_id) {
            CoreError::AllocationError
        } else {
            CoreError::Overflow
        }
    }

    /// Records one contribution: commits an immutable donation record under
    /// `donation_id` and credits `amount` to the campaign's running total,
    /// atomically.
    ///
    /// A zero amount is rejected with `InvalidAmount`, a missing campaign
    /// with `NotFound`, an identifier already in use with `AllocationError`,
    /// and a credit that would leave the representable range with
    /// `Overflow`, in that order of checks.  On any failure the state is
    /// untouched.
    pub fn record_donation(
        &mut self,
        donation_id: u64,
        campaign_id: u64,
        donor: u64,
        amount: u64,
    ) -> (r: Result<u64, CoreError>)
        requires
            old(self).wf(),
        ensures
            final(self).wf(),
            r is Ok <==> old(self).can_record_donation(donation_id, campaign_id, amount),
            r matches Ok(got) ==> got == donation_id,
            r matches Err(e) ==> e == old(self).donation_error(donation_id, campaign_id, amount),
            r is Err ==> *final(self) == *old(self),
            r is Ok ==> final(self).donations@ == old(self).donations@.push(
                (Donation { id: donation_id, campaign: campaign_id, donor, amount }),
            ),
            r is Ok ==> final(self).campaigns@ == old(self).campaigns@.update(
                old(self).campaign_index(campaign_id),
                (Campaign {
                    current_funds: (old(self).campaign(campaign_id).current_funds + amount) as u64,
                    ..old(self).campaign(campaign_id)
                }),
            ),
            r is Ok ==> final(self).proposals@ == old(self).proposals@,
    {
        if amount == 0 {
            return Err(CoreError::InvalidAmount);
        }
        let idx = match self.find_campaign(campaign_id) {
            Some(i) => i,
            None => {
                return Err(CoreError::NotFound);
            },
        };
        proof {
            self.lemma_campaign_index_of(campaign_id, idx as int);
        }
        if self.find_donation(donation_id).is_some() {
            return Err(CoreError::AllocationError);
        }
        let funds = self.campaigns[idx].current_funds;
        if amount > u64::MAX - funds {
            return Err(CoreError::Overflow);
        }
        let record = Donation { id: donation_id, campaign: campaign_id, donor, amount };
        let slot = &mut self.campaigns[idx];
        slot.current_funds = funds + amount;
        self.donations.push(record);
        proof {
            let cs = self.campaigns@;
            let old_cs = old(self).campaigns@;
            let ds = self.donations@;
            let old_ds = old(self).donations@;
            let d = (Donation { id: donation_id, campaign: campaign_id, donor, amount });
            assert(cs =~= old_cs.update(
                idx as int,
                (Campaign {
                    current_funds: (old_cs[idx as int].current_funds + amount) as u64,
                    ..old_cs[idx as int]
                }),
            ));
            assert forall|i: int, j: int| 0 <= i < j < ds.len() implies #[trigger] ds[i].id
                != #[trigger] ds[j].id by {
                if j == ds.len() - 1 {
                    if old_ds[i].id == donation_id {
                        assert(old(self).has_donation(donation_id));
                    }
                }
            }
            assert forall|cid: u64| old(self).has_campaign(cid) implies #[trigger] self
                .has_campaign(cid) by {
                let k = choose|k: int| 0 <= k < old_cs.len() && #[trigger] old_cs[k].id == cid;
                assert(cs[k].id == cid);
            }
            assert forall|i: int|
                0 <= i < cs.len() implies (#[trigger] cs[i]).current_funds == donation_sum(
                ds,
                cs[i].id,
            ) by {
                lemma_donation_sum_push(old_ds, d, cs[i].id);
                if i != idx as int {
                    assert(old_cs[i].id != old_cs[idx as int].id);
                }
            }
        }
        Ok(donation_id)
    }

    /// The total `donor` has contributed to campaign `campaign_id` across
    /// all committed donations: the voter's stake.
    pub fn donated_by(&self, campaign_id: u64, donor: u64) -> (total: u64)
        requires
            self.wf(),
        ensures
            total == donor_sum(self.donations@, campaign_id, donor),
    {
        proof {
            self.lemma_donation_sum_bounded(campaign_id);
        }
        let n = self.donations.len();
        let mut total: u64 = 0;
        let mut i: usize = 0;
        while i < n
            invariant
                n == self.donations@.len(),
                i <= n,
                total == donor_sum(self.donations@.take(i as int), campaign_id, donor),
                donation_sum(self.donations@, campaign_id) <= u64::MAX,
            decreases n - i,
        {
            let d = &self.donations[i];
            proof {
                lemma_donor_sum_take_succ(self.donations@, campaign_id, donor, i as int);
                lemma_donor_sum_le_donation_sum(
                    self.donations@.take(i as int + 1),
                    campaign_id,
                    donor,
                );
                lemma_donation_sum_take_le(self.donations@, campaign_id, i as int + 1);
            }
            if d.campaign == campaign_id && d.donor == donor {
                total = total + d.amount;
            }
            i = i + 1;
        }
        proof {
            assert(self.donations@.take(n as int) =~= self.donations@);
        }
        total
    }
}

} // verus!
