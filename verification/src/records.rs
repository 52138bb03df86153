//! The record types of the voting core: campaigns, contestants, voters, and
//! the leaderboard entries embedded in each campaign.
//!
//! Each type carries a well-formedness predicate that its creating operation
//! establishes and every mutating operation preserves.

use vstd::prelude::*;

verus! {

/// An authenticated identity (a public-key principal), already verified by
/// the surrounding execution environment.
pub type Principal = u64;

/// The key of a campaign record. Keys are handed out by the record store at
/// creation and stay valid forever: records are never deleted.
pub type CampaignKey = usize;

/// The key of a contestant record, handed out by the record store at
/// creation.
pub type ContestantKey = usize;

/// One populated leaderboard entry: a voter and the cumulative total that
/// principal has contributed to the campaign. An empty slot is represented
/// by `None` around this type, never by a sentinel key value.
#[derive(Clone, Copy, Debug, PartialEq, Eq, Structural)]
pub struct TopVoter {
    /// The voter this entry ranks.
    pub voter: Principal,
    /// The cumulative net amount that voter has contributed.
    pub total_voted: u64,
}

/// A time-boxed voting event with a creator, a fee rate, a contestant set
/// and an embedded top-3 voter leaderboard.
#[derive(Clone, Debug, PartialEq)]
pub struct Campaign {
    /// Title; at most 100 characters, and unique across the store.
    pub title: String,
    /// When voting opens (signed timestamp).
    pub start_time: i64,
    /// When voting closes (signed timestamp); always after `start_time`.
    pub end_time: i64,
    /// Sum of all net contributions ever accepted; never decreases.
    pub total_votes: u64,
    /// Whether the campaign currently accepts votes.
    pub is_active: bool,
    /// The creating principal; immutable after creation.
    pub creator: Principal,
    /// Banner URL; at most 200 characters.
    pub banner_url: String,
    /// How many contestants were ever added; never decreases, capped at 50.
    pub contestant_count: u32,
    /// Platform fee percentage; always in `[0, 20]`.
    pub platform_fee_percentage: u8,
    /// The top-3 voter leaderboard, sorted descending by total, empty slots
    /// last.
    pub top_voters: [Option<TopVoter>; 3],
}

/// An option within a campaign that accumulates votes.
#[derive(Clone, Debug, PartialEq)]
pub struct Contestant {
    /// The campaign this contestant belongs to.
    pub campaign: CampaignKey,
    /// Sequential id within the campaign, assigned at creation starting at
    /// 0, never reused.
    pub contestant_id: u32,
    /// Display name; 1 to 50 characters.
    pub name: String,
    /// Image URL; at most 200 characters.
    pub image_url: String,
    /// Biography; at most 500 characters.
    pub bio: String,
    /// Sum of all net contributions cast for this contestant; never
    /// decreases.
    pub vote_count: u64,
}

/// The per-(campaign, principal) cumulative contribution tracker, created
/// lazily on first vote.
#[derive(Clone, Copy, Debug, PartialEq, Eq, Structural)]
pub struct Voter {
    /// The campaign this record belongs to.
    pub campaign: CampaignKey,
    /// The contributing principal.
    pub voter_authority: Principal,
    /// Sum of all net amounts this principal has contributed to this
    /// campaign (fees excluded); never decreases.
    pub total_usdc_voted: u64,
}

impl Campaign {
    /// Well-formedness of a campaign record: field bounds and an ordered
    /// leaderboard.
    pub open spec fn wf(self) -> bool {
        &&& self.title@.len() <= 100
        &&& self.banner_url@.len() <= 200
        &&& self.platform_fee_percentage <= 20
        &&& self.start_time < self.end_time
        &&& self.contestant_count <= 50
        &&& crate::leaderboard::lb_wf(self.top_voters@)
    }
}

impl Contestant {
    /// Well-formedness of a contestant record: field length bounds.
    pub open spec fn wf(self) -> bool {
        &&& 1 <= self.name@.len() <= 50
        &&& self.image_url@.len() <= 200
        &&& self.bio@.len() <= 500
    }
}

} // verus!
