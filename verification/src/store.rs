//! The entity store: durable, key-addressed storage for campaign, donation
//! and proposal records, with existence and uniqueness checks.
//!
//! [`Ledger::wf`] is the store's invariant.  Every operation of the library
//! requires it and re-establishes it; its heart is `funds_consistent`: each
//! campaign's `current_funds` is the exact sum of the committed donation
//! amounts referencing it.

use vstd::prelude::*;

use crate::entities::{Campaign, Donation, Proposal};

verus! {

/// The whole persisted state: one record set per record kind.
pub struct Ledger {
    /// All campaigns, identifiers pairwise distinct.
    pub campaigns: Vec<Campaign>,
    /// All committed donations, append-only, identifiers pairwise distinct.
    pub donations: Vec<Donation>,
    /// All proposals, identifiers pairwise distinct.
    pub proposals: Vec<Proposal>,
}

/// The exact sum of the amounts of the donations in `dons` that reference
/// campaign `campaign_id`.
pub open spec fn donation_sum(dons: Seq<Donation>, campaign_id: u64) -> int
    decreases dons.len(),
{
    if dons.len() == 0 {
        0
    } else {
        donation_sum(dons.drop_last(), campaign_id) + if dons.last().campaign == campaign_id {
            dons.last().amount as int
        } else {
            0
        }
    }
}

/// The exact sum of the amounts of the donations in `dons` that reference
/// campaign `campaign_id` and were contributed by `donor`.
pub open spec fn donor_sum(dons: Seq<Donation>, campaign_id: u64, donor: u64) -> int
    decreases dons.len(),
{
    if dons.len() == 0 {
        0
    } else {
        donor_sum(dons.drop_last(), campaign_id, donor) + if dons.last().campaign == campaign_id
            && dons.last().donor == donor {
            dons.last().amount as int
        } else {
            0
        }
    }
}

/// How many donations in `dons` reference campaign `campaign_id`.
pub open spec fn donation_count(dons: Seq<Donation>, campaign_id: u64) -> int
    decreases dons.len(),
{
    if dons.len() == 0 {
        0
    } else {
        donation_count(dons.drop_last(), campaign_id) + if dons.last().campaign == campaign_id {
            1int
        } else {
            0int
        }
    }
}

/// Campaign identifiers are pairwise distinct.
pub open spec fn unique_campaign_ids(cs: Seq<Campaign>) -> bool {
    forall|i: int, j: int|
        0 <= i < j < cs.len() ==> #[trigger] cs[i].id != #[trigger] cs[j].id
}

/// Donation identifiers are pairwise distinct.
pub open spec fn unique_donation_ids(ds: Seq<Donation>) -> bool {
    forall|i: int, j: int|
        0 <= i < j < ds.len() ==> #[trigger] ds[i].id != #[trigger] ds[j].id
}

/// Proposal identifiers are pairwise distinct.
pub open spec fn unique_proposal_ids(ps: Seq<Proposal>) -> bool {
    forall|i: int, j: int|
        0 <= i < j < ps.len() ==> #[trigger] ps[i].id != #[trigger] ps[j].id
}

impl Ledger {
    /// Some campaign with identifier `id` is stored.
    pub open spec fn has_campaign(self, id: u64) -> bool {
        exists|i: int| 0 <= i < self.campaigns@.len() && #[trigger] self.campaigns@[i].id == id
    }

    /// Some donation with identifier `id` is stored.
    pub open spec fn has_donation(self, id: u64) -> bool {
        exists|i: int| 0 <= i < self.donations@.len() && #[trigger] self.donations@[i].id == id
    }

    /// Some proposal with identifier `id` is stored.
    pub open spec fn has_proposal(self, id: u64) -> bool {
        exists|i: int| 0 <= i < self.proposals@.len() && #[trigger] self.proposals@[i].id == id
    }

    /// The position of the campaign with identifier `id`; meaningful only
    /// when [`Self::has_campaign`] holds.
    pub open spec fn campaign_index(self, id: u64) -> int {
        choose|i: int| 0 <= i < self.campaigns@.len() && #[trigger] self.campaigns@[i].id == id
    }

    /// The position of the proposal with identifier `id`; meaningful only
    /// when [`Self::has_proposal`] holds.
    pub open spec fn proposal_index(self, id: u64) -> int {
        choose|i: int| 0 <= i < self.proposals@.len() && #[trigger] self.proposals@[i].id == id
    }

    /// The position of the donation with identifier `id`; meaningful only
    /// when [`Self::has_donation`] holds.
    pub open spec fn donation_index(self, id: u64) -> int {
        choose|i: int| 0 <= i < self.donations@.len() && #[trigger] self.donations@[i].id == id
    }

    /// The stored campaign with identifier `id`.
    pub open spec fn campaign(self, id: u64) -> Campaign {
        self.campaigns@[self.campaign_index(id)]
    }

    /// The stored proposal with identifier `id`.
    pub open spec fn proposal(self, id: u64) -> Proposal {
        self.proposals@[self.proposal_index(id)]
    }

    /// The stored donation with identifier `id`.
    pub open spec fn donation(self, id: u64) -> Donation {
        self.donations@[self.donation_index(id)]
    }

    /// Every campaign's running total is the exact sum of the committed
    /// donation amounts referencing it.
    pub open spec fn funds_consistent(self) -> bool {
        forall|i: int|
            0 <= i < self.campaigns@.len() ==> (#[trigger] self.campaigns@[i]).current_funds
                == donation_sum(self.donations@, self.campaigns@[i].id)
    }

    /// The store's invariant: identifiers unique per record kind, every
    /// record within its own bounds, every donation and proposal referencing
    /// a stored campaign, and every running total the exact donation sum.
    pub open spec fn wf(self) -> bool {
        &&& unique_campaign_ids(self.campaigns@)
        &&& unique_donation_ids(self.donations@)
        &&& unique_proposal_ids(self.proposals@)
        &&& forall|i: int|
            0 <= i < self.campaigns@.len() ==> (#[trigger] self.campaigns@[i]).valid()
        &&& forall|i: int|
            0 <= i < self.donations@.len() ==> (#[trigger] self.donations@[i]).valid()
        &&& forall|i: int|
            0 <= i < self.proposals@.len() ==> (#[trigger] self.proposals@[i]).valid()
        &&& forall|i: int|
            0 <= i < self.donations@.len() ==> self.has_campaign(
                (#[trigger] self.donations@[i]).campaign,
            )
        &&& forall|i: int|
            0 <= i < self.proposals@.len() ==> self.has_campaign(
                (#[trigger] self.proposals@[i]).campaign,
            )
        &&& self.funds_consistent()
    }

    /// An empty, well-formed store.
    pub fn new() -> (l: Ledger)
        ensures
            l.wf(),
            l.campaigns@.len() == 0,
            l.donations@.len() == 0,
            l.proposals@.len() == 0,
    {
        Ledger { campaigns: Vec::new(), donations: Vec::new(), proposals: Vec::new() }
    }

    /// The stored campaign with identifier `id` sits at position `i` and at
    /// no other: `campaign_index` picks exactly `i`.
    pub proof fn lemma_campaign_index_of(self, id: u64, i: int)
        requires
            unique_campaign_ids(self.campaigns@),
            0 <= i < self.campaigns@.len(),
            self.campaigns@[i].id == id,
        ensures
            self.has_campaign(id),
            self.campaign_index(id) == i,
    {
        assert(self.has_campaign(id));
        let j = self.campaign_index(id);
        if i < j {
            assert(self.campaigns@[i].id != self.campaigns@[j].id);
        } else if j < i {
            assert(self.campaigns@[j].id != self.campaigns@[i].id);
        }
    }

    /// The stored proposal with identifier `id` sits at position `i` and at
    /// no other: `proposal_index` picks exactly `i`.
    pub proof fn lemma_proposal_index_of(self, id: u64, i: int)
        requires
            unique_proposal_ids(self.proposals@),
            0 <= i < self.proposals@.len(),
            self.proposals@[i].id == id,
        ensures
            self.has_proposal(id),
            self.proposal_index(id) == i,
    {
        assert(self.has_proposal(id));
        let j = self.proposal_index(id);
        if i < j {
            assert(self.proposals@[i].id != self.proposals@[j].id);
        } else if j < i {
            assert(self.proposals@[j].id != self.proposals@[i].id);
        }
    }

    /// The stored donation with identifier `id` sits at position `i` and at
    /// no other: `donation_index` picks exactly `i`.
    pub proof fn lemma_donation_index_of(self, id: u64, i: int)
        requires
            unique_donation_ids(self.donations@),
            0 <= i < self.donations@.len(),
            self.donations@[i].id == id,
        ensures
            self.has_donation(id),
            self.donation_index(id) == i,
    {
        assert(self.has_donation(id));
        let j = self.donation_index(id);
        if i < j {
            assert(self.donations@[i].id != self.donations@[j].id);
        } else if j < i {
            assert(self.donations@[j].id != self.donations@[i].id);
        }
    }

    /// Looks a campaign up by identifier.
    pub fn find_campaign(&self, id: u64) -> (r: Option<usize>)
        ensures
            r matches Some(i) ==> i < self.campaigns@.len() && self.campaigns@[i as int].id == id,
            r is None <==> !self.has_campaign(id),
    {
        let n = self.campaigns.len();
        let mut i: usize = 0;
        while i < n
            invariant
                n == self.campaigns@.len(),
                i <= n,
                forall|k: int| 0 <= k < i ==> #[trigger] self.campaigns@[k].id != id,
            decreases n - i,
        {
            if self.campaigns[i].id == id {
                return Some(i);
            }
            i = i + 1;
        }
        None
    }

    /// Reads the stored campaign with identifier `id`, if any.
    pub fn get_campaign(&self, id: u64) -> (r: Option<&Campaign>)
        requires
            self.wf(),
        ensures
            r is Some <==> self.has_campaign(id),
            r matches Some(c) ==> *c == self.campaign(id),
    {
        match self.find_campaign(id) {
            Some(i) => {
                proof {
                    self.lemma_campaign_index_of(id, i as int);
                }
                Some(&self.campaigns[i])
            },
            None => None,
        }
    }

    /// Reads the stored donation with identifier `id`, if any.
    pub fn get_donation(&self, id: u64) -> (r: Option<&Donation>)
        requires
            self.wf(),
        ensures
            r is Some <==> self.has_donation(id),
            r matches Some(d) ==> *d == self.donation(id),
    {
        match self.find_donation(id) {
            Some(i) => {
                proof {
                    self.lemma_donation_index_of(id, i as int);
                }
                Some(&self.donations[i])
            },
            None => None,
        }
    }

    /// Reads the stored proposal with identifier `id`, if any.
    pub fn get_proposal(&self, id: u64) -> (r: Option<&Proposal>)
        requires
            self.wf(),
        ensures
            r is Some <==> self.has_proposal(id),
            r matches Some(p) ==> *p == self.proposal(id),
    {
        match self.find_proposal(id) {
            Some(i) => {
                proof {
                    self.lemma_proposal_index_of(id, i as int);
                }
                Some(&self.proposals[i])
            },
            None => None,
        }
    }

    /// Looks a donation up by identifier.
    pub fn find_donation(&self, id: u64) -> (r: Option<usize>)
        ensures
            r matches Some(i) ==> i < self.donations@.len() && self.donations@[i as int].id == id,
            r is None <==> !self.has_donation(id),
    {
        let n = self.donations.len();
        let mut i: usize = 0;
        while i < n
            invariant
                n == self.donations@.len(),
                i <= n,
                forall|k: int| 0 <= k < i ==> #[trigger] self.donations@[k].id != id,
            decreases n - i,
        {
            if self.donations[i].id == id {
                return Some(i);
            }
            i = i + 1;
        }
        None
    }

    /// Looks a proposal up by identifier.
    pub fn find_proposal(&self, id: u64) -> (r: Option<usize>)
        ensures
            r matches Some(i) ==> i < self.proposals@.len() && self.proposals@[i as int].id == id,
            r is None <==> !self.has_proposal(id),
    {
        let n = self.proposals.len();
        let mut i: usize = 0;
        while i < n
            invariant
                n == self.proposals@.len(),
                i <= n,
                forall|k: int| 0 <= k < i ==> #[trigger] self.proposals@[k].id != id,
            decreases n - i,
        {
            if self.proposals[i].id == id {
                return Some(i);
            }
            i = i + 1;
        }
        None
    }
}

/// Appending a donation grows the sum for its own campaign by its amount and
/// leaves every other campaign's sum unchanged.
pub proof fn lemma_donation_sum_push(dons: Seq<Donation>, d: Donation, campaign_id: u64)
    ensures
        donation_sum(dons.push(d), campaign_id) == donation_sum(dons, campaign_id) + if d.campaign
            == campaign_id {
            d.amount as int
        } else {
            0
        },
{
    assert(dons.push(d).drop_last() =~= dons);
}

/// A campaign no donation references has sum zero.
pub proof fn lemma_donation_sum_unreferenced(dons: Seq<Donation>, campaign_id: u64)
    requires
        forall|i: int| 0 <= i < dons.len() ==> (#[trigger] dons[i]).campaign != campaign_id,
    ensures
        donation_sum(dons, campaign_id) == 0,
    decreases dons.len(),
{
    if dons.len() > 0 {
        assert(dons[dons.len() - 1].campaign != campaign_id);
        assert forall|i: int|
            0 <= i < dons.drop_last().len() implies (#[trigger] dons.drop_last()[i]).campaign
            != campaign_id by {
            assert(dons.drop_last()[i] == dons[i]);
        }
        lemma_donation_sum_unreferenced(dons.drop_last(), campaign_id);
    }
}

/// Donation sums never go negative.
pub proof fn lemma_donation_sum_nonneg(dons: Seq<Donation>, campaign_id: u64)
    ensures
        donation_sum(dons, campaign_id) >= 0,
    decreases dons.len(),
{
    if dons.len() > 0 {
        lemma_donation_sum_nonneg(dons.drop_last(), campaign_id);
    }
}

/// Extending a prefix by one donation grows the prefix sum by that
/// donation's contribution.
pub proof fn lemma_donation_sum_take_succ(dons: Seq<Donation>, campaign_id: u64, i: int)
    requires
        0 <= i < dons.len(),
    ensures
        donation_sum(dons.take(i + 1), campaign_id) == donation_sum(dons.take(i), campaign_id)
            + if dons[i].campaign == campaign_id {
            dons[i].amount as int
        } else {
            0
        },
{
    assert(dons.take(i + 1).drop_last() =~= dons.take(i));
    assert(dons.take(i + 1).last() == dons[i]);
}

/// Extending a prefix by one donation grows the prefix donor sum by that
/// donation's contribution.
pub proof fn lemma_donor_sum_take_succ(dons: Seq<Donation>, campaign_id: u64, donor: u64, i: int)
    requires
        0 <= i < dons.len(),
    ensures
        donor_sum(dons.take(i + 1), campaign_id, donor) == donor_sum(
            dons.take(i),
            campaign_id,
            donor,
        ) + if dons[i].campaign == campaign_id && dons[i].donor == donor {
            dons[i].amount as int
        } else {
            0
        },
{
    assert(dons.take(i + 1).drop_last() =~= dons.take(i));
    assert(dons.take(i + 1).last() == dons[i]);
}

/// A donor's contributions to a campaign never exceed the campaign's whole
/// donation sum.
pub proof fn lemma_donor_sum_le_donation_sum(dons: Seq<Donation>, campaign_id: u64, donor: u64)
    ensures
        0 <= donor_sum(dons, campaign_id, donor),
        donor_sum(dons, campaign_id, donor) <= donation_sum(dons, campaign_id),
    decreases dons.len(),
{
    if dons.len() > 0 {
        lemma_donor_sum_le_donation_sum(dons.drop_last(), campaign_id, donor);
    }
}

/// A prefix of the donation log never sums to more than the whole log.
pub proof fn lemma_donation_sum_take_le(dons: Seq<Donation>, campaign_id: u64, i: int)
    requires
        0 <= i <= dons.len(),
    ensures
        donation_sum(dons.take(i), campaign_id) <= donation_sum(dons, campaign_id),
    decreases dons.len() - i,
{
    if i == dons.len() {
        assert(dons.take(i) =~= dons);
    } else {
        lemma_donation_sum_take_succ(dons, campaign_id, i);
        lemma_donation_sum_take_le(dons, campaign_id, i + 1);
    }
}

} // verus!
