//! The three record kinds the ledger stores.
//!
//! Identifiers and identities are opaque unsigned integers: the ledger only
//! ever compares them for equality.  Text fields are bounded so a record
//! always fits the space its storage allocated.

use vstd::prelude::*;

verus! {

/// Maximum length of a campaign name, in characters.
pub const MAX_NAME_LEN: usize = 64;

/// Maximum length of a campaign or proposal description, in characters.
pub const MAX_DESC_LEN: usize = 128;

/// A funding goal with an accumulating total contributed by donors.
pub struct Campaign {
    /// Unique identifier of this campaign.
    pub id: u64,
    /// Identity of the creator; never changes after creation.
    pub creator: u64,
    /// Bounded display name.
    pub name: String,
    /// Bounded description.
    pub description: String,
    /// Funding goal, set once at creation and immutable.
    pub target_amount: u64,
    /// Exact sum of all committed donation amounts referencing this
    /// campaign; monotonically non-decreasing.
    pub current_funds: u64,
}

/// An immutable record of one contribution to a campaign.
pub struct Donation {
    /// Unique identifier of this donation.
    pub id: u64,
    /// The campaign this donation funds.
    pub campaign: u64,
    /// Identity of the contributor.
    pub donor: u64,
    /// Contributed amount; strictly positive.
    pub amount: u64,
}

/// A time-bounded governance question tied to a campaign.
pub struct Proposal {
    /// Unique identifier of this proposal.
    pub id: u64,
    /// The campaign this proposal belongs to.
    pub campaign: u64,
    /// Identity that created the proposal; the only identity allowed to
    /// later mark it executed.
    pub proposer: u64,
    /// Bounded description.
    pub description: String,
    /// Number of supporting votes cast; only ever incremented.
    pub yes_votes: u64,
    /// Number of opposing votes cast; only ever incremented.
    pub no_votes: u64,
    /// Absolute close of the voting window; votes are accepted only while
    /// the current time is strictly before it.
    pub end_time: i64,
    /// Latches true once, after closure, and never reverts.
    pub executed: bool,
}

/// What a successfully cast vote reports back.
#[derive(Clone, Copy, Debug, PartialEq, Eq, Structural)]
pub struct VoteResult {
    /// Supporting tally after this vote.
    pub yes_votes: u64,
    /// Opposing tally after this vote.
    pub no_votes: u64,
    /// Reward quantity owed to the voter: the floor of the voter's share
    /// of the campaign's funds, scaled by the reward pool.
    pub reward: u64,
    /// Identity the reward is owed to.
    pub recipient: u64,
}

impl Campaign {
    /// The record's own field bounds.
    pub open spec fn valid(self) -> bool {
        &&& self.name@.len() <= MAX_NAME_LEN
        &&& self.description@.len() <= MAX_DESC_LEN
    }
}

impl Donation {
    /// The record's own field bounds: a committed donation is never zero.
    pub open spec fn valid(self) -> bool {
        self.amount > 0
    }
}

impl Proposal {
    /// The record's own field bounds.
    pub open spec fn valid(self) -> bool {
        self.description@.len() <= MAX_DESC_LEN
    }
}

} // verus!
