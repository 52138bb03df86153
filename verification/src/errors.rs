//! The error taxonomy of the voting core.
//!
//! Every operation reports its failure through one of these codes; no error
//! is ever swallowed, and every validation short-circuits the operation
//! before any record is mutated.

use vstd::prelude::*;

verus! {

/// Failure codes returned by the campaign, contestant, vote and treasury
/// operations.
#[derive(Clone, Copy, Debug, PartialEq, Eq, Structural)]
pub enum ErrorCode {
    /// The campaign is paused, or the voting period has ended.
    CampaignNotActiveOrEnded,
    /// Declared for a once-planned one-vote-per-principal restriction;
    /// repeat voting is allowed and cumulative, so no operation returns it.
    AlreadyVoted,
    /// Declared for a once-planned minimum vote size; the fee is computed on
    /// the whole amount, so no operation returns it.
    AmountTooSmallForFee,
    /// The fee multiplication overflowed.
    InvalidFeeCalculation,
    /// The caller is not the principal this operation requires.
    Unauthorized,
    /// The new end time is not after both the current time and the start time.
    InvalidEndTime,
    /// The contestant record does not belong to the named campaign.
    InvalidContestant,
    /// The campaign's voting period has ended.
    CampaignEnded,
    /// The campaign is already paused.
    CampaignAlreadyPaused,
    /// The campaign is already active.
    CampaignAlreadyActive,
    /// The campaign has not started yet.
    CampaignNotStarted,
    /// The title exceeds 100 characters.
    TitleTooLong,
    /// The URL exceeds 200 characters.
    UrlTooLong,
    /// The platform fee percentage exceeds 20.
    FeeTooHigh,
    /// The start time is not before the end time.
    InvalidTimeRange,
    /// The end time is not after the current time.
    EndTimeInPast,
    /// The vote amount is zero.
    ZeroAmount,
    /// A vote counter would overflow.
    VoteOverflow,
    /// The contestant name is empty or exceeds 50 characters.
    InvalidName,
    /// The bio exceeds 500 characters.
    BioTooLong,
    /// The campaign already holds 50 contestants.
    TooManyContestants,
    /// The contestant counter would overflow.
    ContestantOverflow,
    /// A campaign with the same title key already exists.
    DuplicateCampaign,
}

} // verus!
