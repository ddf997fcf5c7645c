//! The campaign manager: creates campaigns.
//!
//! A new campaign starts with `current_funds = 0`; only validated donation
//! increments (see [`crate::donation`]) ever raise the total.

use vstd::prelude::*;

use crate::entities::{Campaign, MAX_DESC_LEN, MAX_NAME_LEN};
use crate::errors::CoreError;
use crate::store::{donation_sum, lemma_donation_sum_unreferenced, Ledger};

verus! {

impl Ledger {
    /// Whether a request to create campaign `id` with the given texts
    /// succeeds against this state.
    pub open spec fn can_create_campaign(
        self,
        id: u64,
        name: Seq<char>,
        description: Seq<char>,
    ) -> bool {
        &&& name.len() <= MAX_NAME_LEN
        &&& description.len() <= MAX_DESC_LEN
        &&& !self.has_campaign(id)
    }

    /// The error a refused campaign creation reports.
    pub open spec fn campaign_error(self, id: u64, name: Seq<char>, description: Seq<char>)
        -> CoreError {
        if name.len() > MAX_NAME_LEN || description.len() > MAX_DESC_LEN {
            CoreError::FieldTooLong
        } else {
            CoreError::AllocationError
        }
    }

    /// Allocates a new campaign record under `id`, owned by `creator`, with
    /// no funds yet.
    ///
    /// Rejects over-long texts with `FieldTooLong` and an identifier already
    /// in use with `AllocationError`; a zero target is accepted.  On success
    /// the new record is appended and nothing else changes; on failure the
    /// state is untouched.
    pub fn create_campaign(
        &mut self,
        id: u64,
        creator: u64,
        name: String,
        description: String,
        target_amount: u64,
    ) -> (r: Result<u64, CoreError>)
        requires
            old(self).wf(),
        ensures
            final(self).wf(),
            r is Ok <==> old(self).can_create_campaign(id, name@, description@),
            r matches Ok(got) ==> got == id,
            r matches Err(e) ==> e == old(self).campaign_error(id, name@, description@),
            r is Err ==> *final(self) == *old(self),
            r is Ok ==> final(self).campaigns@ == old(self).campaigns@.push(
                (Campaign {
                    id,
                    creator,
                    name,
                    description,
                    target_amount,
                    current_funds: 0,
                }),
            ),
            r is Ok ==> final(self).donations@ == old(self).donations@,
            r is Ok ==> final(self).proposals@ == old(self).proposals@,
    {
        if name.as_str().unicode_len() > MAX_NAME_LEN
            || description.as_str().unicode_len() > MAX_DESC_LEN {
            return Err(CoreError::FieldTooLong);
        }
        if self.find_campaign(id).is_some() {
            return Err(CoreError::AllocationError);
        }
        let record = Campaign { id, creator, name, description, target_amount, current_funds: 0 };
        proof {
            // No stored donation can reference the fresh identifier, so the
            // new record's zero total is the exact donation sum.
            assert forall|i: int|
                0 <= i < self.donations@.len() implies (#[trigger] self.donations@[i]).campaign
                != id by {
                if self.donations@[i].campaign == id {
                    assert(self.has_campaign(id));
                }
            }
            lemma_donation_sum_unreferenced(self.donations@, id);
        }
        self.campaigns.push(record);
        proof {
            let cs = self.campaigns@;
            let old_cs = old(self).campaigns@;
            assert forall|i: int, j: int| 0 <= i < j < cs.len() implies #[trigger] cs[i].id
                != #[trigger] cs[j].id by {
                if j == cs.len() - 1 {
                    if old_cs[i].id == id {
                        assert(old(self).has_campaign(id));
                    }
                }
            }
            assert forall|cid: u64| old(self).has_campaign(cid) implies #[trigger] self
                .has_campaign(cid) by {
                let k = choose|k: int|
                    0 <= k < old_cs.len() && #[trigger] old_cs[k].id == cid;
                assert(cs[k].id == cid);
            }
            assert(self.funds_consistent());
        }
        Ok(id)
    }
}

} // verus!
