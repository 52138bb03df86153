//! The record store and the transactional operations of the voting core.
//!
//! The store holds the three keyed record tables — campaigns, contestants
//! and voters. A key is handed out when a record is created and stays valid
//! forever: records are never deleted. Every operation validates before it
//! mutates, so a failed call leaves the store exactly as it was; the
//! surrounding execution environment makes each call one atomic transaction.

use vstd::prelude::*;
use vstd::string::StrSliceExecFns;
use crate::errors::ErrorCode;
use crate::fee::{compute_fee_split, fee_fits, spec_fee, FeeSplit};
use crate::leaderboard::{lb_empty, lb_update, lemma_lb_empty_wf, lemma_lb_update_wf, update_top_voters};
use crate::records::{Campaign, CampaignKey, Contestant, ContestantKey, Principal, Voter};

verus! {

/// The keyed record tables of the voting core.
pub struct RecordStore {
    /// Campaign records; a `CampaignKey` is an index into this table.
    pub campaigns: Vec<Campaign>,
    /// Contestant records; a `ContestantKey` is an index into this table.
    pub contestants: Vec<Contestant>,
    /// Voter records, one per (campaign, principal) pair, created lazily on
    /// first vote.
    pub voters: Vec<Voter>,
}

/// The voter record belongs to this campaign and principal.
pub open spec fn voter_matches(v: Voter, campaign_key: int, authority: Principal) -> bool {
    v.campaign as int == campaign_key && v.voter_authority == authority
}

/// The first failure `edit_campaign` reports on this campaign, or `None`
/// when the whole patch is authorized and valid.
pub open spec fn edit_campaign_error(
    c: Campaign,
    caller: Principal,
    end_time: Option<i64>,
    banner_url: Option<String>,
    platform_fee_percentage: Option<u8>,
    now: i64,
) -> Option<ErrorCode> {
    if c.creator != caller {
        Some(ErrorCode::Unauthorized)
    } else if end_time matches Some(t) && !(t > now && t > c.start_time) {
        Some(ErrorCode::InvalidEndTime)
    } else if banner_url matches Some(u) && u@.len() > 200 {
        Some(ErrorCode::UrlTooLong)
    } else if platform_fee_percentage matches Some(p) && p > 20 {
        Some(ErrorCode::FeeTooHigh)
    } else {
        None
    }
}

/// The failure `pause_campaign` reports on this campaign, or `None`.
pub open spec fn pause_campaign_error(c: Campaign, caller: Principal) -> Option<ErrorCode> {
    if c.creator != caller {
        Some(ErrorCode::Unauthorized)
    } else if !c.is_active {
        Some(ErrorCode::CampaignAlreadyPaused)
    } else {
        None
    }
}

/// The failure `activate_campaign` reports on this campaign, or `None`.
pub open spec fn activate_campaign_error(c: Campaign, caller: Principal, now: i64) -> Option<
    ErrorCode,
> {
    if c.creator != caller {
        Some(ErrorCode::Unauthorized)
    } else if c.is_active {
        Some(ErrorCode::CampaignAlreadyActive)
    } else if now >= c.end_time {
        Some(ErrorCode::CampaignEnded)
    } else {
        None
    }
}

/// A store stays well-formed when one campaign record is replaced by a
/// well-formed record with the same title and a contestant count at least
/// as large, all other records untouched.
proof fn lemma_wf_campaign_update(s0: RecordStore, s1: RecordStore, key: int)
    requires
        s0.wf(),
        0 <= key < s0.campaigns@.len(),
        s1.campaigns@.len() == s0.campaigns@.len(),
        forall|i: int|
            0 <= i < s0.campaigns@.len() && i != key ==> s1.campaigns@[i] == s0.campaigns@[i],
        s1.campaigns@[key].wf(),
        s1.campaigns@[key].title@ == s0.campaigns@[key].title@,
        s1.campaigns@[key].contestant_count >= s0.campaigns@[key].contestant_count,
        s1.contestants == s0.contestants,
        s1.voters == s0.voters,
    ensures
        s1.wf(),
{
    assert forall|i: int| 0 <= i < s1.campaigns@.len() implies (#[trigger] s1.campaigns@[i]).wf() by {
        assert(s0.campaigns@[i].wf());
    };
    assert forall|i: int, j: int| 0 <= i < j < s1.campaigns@.len() implies (
    #[trigger] s1.campaigns@[i]).title@ != (#[trigger] s1.campaigns@[j]).title@ by {
        assert(s0.campaigns@[i].title@ != s0.campaigns@[j].title@);
    };
    assert forall|i: int| 0 <= i < s1.contestants@.len() implies #[trigger] s1.contestant_linked(
        i,
    ) by {
        assert(s0.contestant_linked(i));
        assert(s1.contestants@[i] == s0.contestants@[i]);
        if s1.contestants@[i].campaign as int == key {
            assert(s1.campaigns@[key].contestant_count >= s0.campaigns@[key].contestant_count);
        }
    };
    assert(s1.contestants@ == s0.contestants@);
    assert(s1.voters@ == s0.voters@);
}

/// A store stays well-formed when one contestant record is replaced by a
/// well-formed record with the same (campaign, id) key, all other records
/// untouched.
proof fn lemma_wf_contestant_update(s0: RecordStore, s1: RecordStore, key: int)
    requires
        s0.wf(),
        0 <= key < s0.contestants@.len(),
        s1.campaigns == s0.campaigns,
        s1.voters == s0.voters,
        s1.contestants@.len() == s0.contestants@.len(),
        forall|i: int|
            0 <= i < s0.contestants@.len() && i != key ==> s1.contestants@[i] == s0.contestants@[i],
        s1.contestants@[key].wf(),
        s1.contestants@[key].campaign == s0.contestants@[key].campaign,
        s1.contestants@[key].contestant_id == s0.contestants@[key].contestant_id,
    ensures
        s1.wf(),
{
    assert(s1.campaigns@ == s0.campaigns@);
    assert(s1.voters@ == s0.voters@);
    assert forall|i: int| 0 <= i < s1.contestants@.len() implies #[trigger] s1.contestant_linked(
        i,
    ) by {
        assert(s0.contestant_linked(i));
    };
    assert forall|i: int, j: int| 0 <= i < j < s1.contestants@.len() implies !((
    #[trigger] s1.contestants@[i]).campaign == (#[trigger] s1.contestants@[j]).campaign
        && s1.contestants@[i].contestant_id == s1.contestants@[j].contestant_id) by {
        assert(!(s0.contestants@[i].campaign == s0.contestants@[j].campaign
            && s0.contestants@[i].contestant_id == s0.contestants@[j].contestant_id));
    };
}

/// The first failure `add_contestant` reports on this campaign, or `None`.
pub open spec fn add_contestant_error(
    c: Campaign,
    caller: Principal,
    name: Seq<char>,
    image_url: Seq<char>,
    bio: Seq<char>,
) -> Option<ErrorCode> {
    if c.creator != caller {
        Some(ErrorCode::Unauthorized)
    } else if name.len() == 0 || name.len() > 50 {
        Some(ErrorCode::InvalidName)
    } else if image_url.len() > 200 {
        Some(ErrorCode::UrlTooLong)
    } else if bio.len() > 500 {
        Some(ErrorCode::BioTooLong)
    } else if c.contestant_count >= 50 {
        Some(ErrorCode::TooManyContestants)
    } else {
        None
    }
}

/// The first failure `edit_contestant` reports, or `None` when the whole
/// patch is authorized and valid.
pub open spec fn edit_contestant_error(
    c: Campaign,
    ct: Contestant,
    campaign_key: int,
    caller: Principal,
    name: Option<String>,
    image_url: Option<String>,
    bio: Option<String>,
) -> Option<ErrorCode> {
    if c.creator != caller {
        Some(ErrorCode::Unauthorized)
    } else if ct.campaign as int != campaign_key {
        Some(ErrorCode::InvalidContestant)
    } else if name matches Some(n) && (n@.len() == 0 || n@.len() > 50) {
        Some(ErrorCode::InvalidName)
    } else if image_url matches Some(u) && u@.len() > 200 {
        Some(ErrorCode::UrlTooLong)
    } else if bio matches Some(b) && b@.len() > 500 {
        Some(ErrorCode::BioTooLong)
    } else {
        None
    }
}

impl RecordStore {
    /// Every campaign record is well-formed.
    pub open spec fn campaigns_wf(self) -> bool {
        forall|i: int|
            0 <= i < self.campaigns@.len() ==> (#[trigger] self.campaigns@[i]).wf()
    }

    /// No two campaigns share a title: the title is the campaign's
    /// deterministic key.
    pub open spec fn titles_unique(self) -> bool {
        forall|i: int, j: int|
            0 <= i < j < self.campaigns@.len() ==> (#[trigger] self.campaigns@[i]).title@ != (
            #[trigger] self.campaigns@[j]).title@
    }

    /// The contestant record is well-formed, points at an existing
    /// campaign, and its sequential id was assigned below that campaign's
    /// contestant count.
    pub open spec fn contestant_linked(self, i: int) -> bool {
        let ct = self.contestants@[i];
        &&& ct.wf()
        &&& (ct.campaign as int) < self.campaigns@.len()
        &&& (ct.contestant_id as int) < (self.campaigns@[ct.campaign as int].contestant_count
            as int)
    }

    /// Every contestant record is well-formed and linked.
    pub open spec fn contestants_wf(self) -> bool {
        forall|i: int| 0 <= i < self.contestants@.len() ==> #[trigger] self.contestant_linked(i)
    }

    /// No two contestants share a (campaign, id) key.
    pub open spec fn contestant_keys_unique(self) -> bool {
        forall|i: int, j: int|
            0 <= i < j < self.contestants@.len() ==> !((#[trigger] self.contestants@[i]).campaign
                == (#[trigger] self.contestants@[j]).campaign && self.contestants@[i].contestant_id
                == self.contestants@[j].contestant_id)
    }

    /// Every voter record points at an existing campaign.
    pub open spec fn voters_wf(self) -> bool {
        forall|i: int|
            0 <= i < self.voters@.len() ==> ((#[trigger] self.voters@[i]).campaign as int)
                < self.campaigns@.len()
    }

    /// At most one voter record per (campaign, principal) pair.
    pub open spec fn voter_keys_unique(self) -> bool {
        forall|i: int, j: int|
            0 <= i < j < self.voters@.len() ==> !((#[trigger] self.voters@[i]).campaign == (
            #[trigger] self.voters@[j]).campaign && self.voters@[i].voter_authority
                == self.voters@[j].voter_authority)
    }

    /// Well-formedness of the whole store: every record well-formed, every
    /// back-reference valid, every key unique.
    pub open spec fn wf(self) -> bool {
        &&& self.campaigns_wf()
        &&& self.titles_unique()
        &&& self.contestants_wf()
        &&& self.contestant_keys_unique()
        &&& self.voters_wf()
        &&& self.voter_keys_unique()
    }

    /// A campaign with this title already exists.
    pub open spec fn has_campaign_titled(self, title: Seq<char>) -> bool {
        exists|i: int|
            0 <= i < self.campaigns@.len() && (#[trigger] self.campaigns@[i]).title@ == title
    }

    /// A voter record exists for this (campaign, principal) pair.
    pub open spec fn has_voter(self, campaign_key: int, authority: Principal) -> bool {
        exists|j: int|
            0 <= j < self.voters@.len() && voter_matches(
                #[trigger] self.voters@[j],
                campaign_key,
                authority,
            )
    }

    /// The index of the voter record for this (campaign, principal) pair;
    /// meaningful only when `has_voter` holds, and then unique by
    /// `voter_keys_unique`.
    pub open spec fn voter_index(self, campaign_key: int, authority: Principal) -> int {
        choose|j: int|
            0 <= j < self.voters@.len() && voter_matches(
                #[trigger] self.voters@[j],
                campaign_key,
                authority,
            )
    }

    /// The cumulative net amount this principal has contributed to this
    /// campaign: the voter record's total, or 0 before the first vote.
    pub open spec fn voter_total(self, campaign_key: int, authority: Principal) -> u64 {
        if self.has_voter(campaign_key, authority) {
            self.voters@[self.voter_index(campaign_key, authority)].total_usdc_voted
        } else {
            0
        }
    }

    /// The first failure `cast_vote` (and `prepare_vote`) reports, or
    /// `None` when the vote is accepted: the campaign must be active and
    /// inside its time window, the amount positive, the contestant linked
    /// to the campaign, the fee multiplication within `u64`, and each of
    /// the three counters must admit the net amount without overflow.
    pub open spec fn vote_error(
        self,
        campaign_key: int,
        contestant_key: int,
        voter_authority: Principal,
        amount: u64,
        now: i64,
    ) -> Option<ErrorCode> {
        let c = self.campaigns@[campaign_key];
        let ct = self.contestants@[contestant_key];
        if !c.is_active {
            Some(ErrorCode::CampaignNotActiveOrEnded)
        } else if now < c.start_time {
            Some(ErrorCode::CampaignNotStarted)
        } else if now > c.end_time {
            Some(ErrorCode::CampaignNotActiveOrEnded)
        } else if amount == 0 {
            Some(ErrorCode::ZeroAmount)
        } else if ct.campaign as int != campaign_key {
            Some(ErrorCode::InvalidContestant)
        } else if !fee_fits(amount, c.platform_fee_percentage) {
            Some(ErrorCode::InvalidFeeCalculation)
        } else {
            let net = amount as int - spec_fee(amount, c.platform_fee_percentage);
            if c.total_votes as int + net > u64::MAX as int {
                Some(ErrorCode::VoteOverflow)
            } else if self.voter_total(campaign_key, voter_authority) as int + net > u64::MAX
                as int {
                Some(ErrorCode::VoteOverflow)
            } else if ct.vote_count as int + net > u64::MAX as int {
                Some(ErrorCode::VoteOverflow)
            } else {
                None
            }
        }
    }

    /// Time-window law: on an active campaign whose window is well-formed
    /// — as every campaign `create_campaign` makes is, with `is_active`
    /// and `start_time < end_time` — a vote cast before the start time
    /// fails as not started, and one cast after the end time fails as
    /// ended, whatever the voter, contestant and amount. `cast_vote` and
    /// `prepare_vote` return exactly `vote_error`'s verdict.
    pub proof fn lemma_vote_outside_window_rejected(
        self,
        campaign_key: int,
        contestant_key: int,
        voter_authority: Principal,
        amount: u64,
        now: i64,
    )
        requires
            0 <= campaign_key < self.campaigns@.len(),
            0 <= contestant_key < self.contestants@.len(),
            self.campaigns@[campaign_key].is_active,
            self.campaigns@[campaign_key].start_time < self.campaigns@[campaign_key].end_time,
        ensures
            now < self.campaigns@[campaign_key].start_time ==> self.vote_error(
                campaign_key,
                contestant_key,
                voter_authority,
                amount,
                now,
            ) == Some(ErrorCode::CampaignNotStarted),
            now > self.campaigns@[campaign_key].end_time ==> self.vote_error(
                campaign_key,
                contestant_key,
                voter_authority,
                amount,
                now,
            ) == Some(ErrorCode::CampaignNotActiveOrEnded),
    {
    }

    /// The fee split an accepted vote of `amount` pays in this campaign.
    pub open spec fn vote_split(self, campaign_key: int, amount: u64) -> FeeSplit {
        let pct = self.campaigns@[campaign_key].platform_fee_percentage;
        FeeSplit {
            fee: spec_fee(amount, pct) as u64,
            net: (amount as int - spec_fee(amount, pct)) as u64,
        }
    }

    /// An empty store; trivially well-formed.
    pub fn new() -> (r: RecordStore)
        ensures
            r.wf(),
            r.campaigns@.len() == 0,
            r.contestants@.len() == 0,
            r.voters@.len() == 0,
    {
        RecordStore { campaigns: Vec::new(), contestants: Vec::new(), voters: Vec::new() }
    }

    /// The first failure `create_campaign` reports, or `None` when the call
    /// succeeds: each input is validated in order, then the title key is
    /// checked against the existing campaigns.
    pub open spec fn create_campaign_error(
        self,
        title: Seq<char>,
        start_time: i64,
        end_time: i64,
        banner_url: Seq<char>,
        platform_fee_percentage: u8,
        now: i64,
    ) -> Option<ErrorCode> {
        if title.len() > 100 {
            Some(ErrorCode::TitleTooLong)
        } else if banner_url.len() > 200 {
            Some(ErrorCode::UrlTooLong)
        } else if platform_fee_percentage > 20 {
            Some(ErrorCode::FeeTooHigh)
        } else if start_time >= end_time {
            Some(ErrorCode::InvalidTimeRange)
        } else if end_time <= now {
            Some(ErrorCode::EndTimeInPast)
        } else if self.has_campaign_titled(title) {
            Some(ErrorCode::DuplicateCampaign)
        } else {
            None
        }
    }

    /// Creates a new campaign keyed by its title and returns its key.
    ///
    /// On success the campaign starts active, with no votes, no
    /// contestants, and all three leaderboard slots empty. A validation
    /// failure or a duplicate title leaves the store unchanged.
    #[verifier::loop_isolation(false)]
    pub fn create_campaign(
        &mut self,
        creator: Principal,
        title: String,
        start_time: i64,
        end_time: i64,
        banner_url: String,
        platform_fee_percentage: u8,
        now: i64,
    ) -> (r: Result<CampaignKey, ErrorCode>)
        requires
            old(self).wf(),
        ensures
            final(self).wf(),
            match old(self).create_campaign_error(
                title@,
                start_time,
                end_time,
                banner_url@,
                platform_fee_percentage,
                now,
            ) {
                Some(e) => r == Err::<CampaignKey, ErrorCode>(e) && *final(self) == *old(self),
                None => {
                    &&& r == Ok::<CampaignKey, ErrorCode>(old(self).campaigns@.len() as usize)
                    &&& final(self).campaigns@.len() == old(self).campaigns@.len() + 1
                    &&& (forall|i: int|
                        0 <= i < old(self).campaigns@.len() ==> final(self).campaigns@[i] == old(
                            self,
                        ).campaigns@[i])
                    &&& ({
                        let c = final(self).campaigns@.last();
                        &&& c.title@ == title@
                        &&& c.start_time == start_time
                        &&& c.end_time == end_time
                        &&& c.total_votes == 0
                        &&& c.is_active
                        &&& c.creator == creator
                        &&& c.banner_url@ == banner_url@
                        &&& c.contestant_count == 0
                        &&& c.platform_fee_percentage == platform_fee_percentage
                        &&& lb_empty(c.top_voters@)
                    })
                    &&& final(self).contestants == old(self).contestants
                    &&& final(self).voters == old(self).voters
                },
            },
    {
        if title.as_str().unicode_len() > 100 {
            return Err(ErrorCode::TitleTooLong);
        }
        if banner_url.as_str().unicode_len() > 200 {
            return Err(ErrorCode::UrlTooLong);
        }
        if platform_fee_percentage > 20 {
            return Err(ErrorCode::FeeTooHigh);
        }
        if start_time >= end_time {
            return Err(ErrorCode::InvalidTimeRange);
        }
        if end_time <= now {
            return Err(ErrorCode::EndTimeInPast);
        }
        let n = self.campaigns.len();
        let mut i: usize = 0;
        while i < n
            invariant
                *self == *old(self),
                n == self.campaigns@.len(),
                i <= n,
                forall|j: int| 0 <= j < i ==> (#[trigger] self.campaigns@[j]).title@ != title@,
            decreases n - i,
        {
            if self.campaigns[i].title == title {
                proof {
                    assert(old(self).campaigns@[i as int].title@ == title@);
                    assert(old(self).has_campaign_titled(title@));
                }
                return Err(ErrorCode::DuplicateCampaign);
            }
            i += 1;
        }
        assert(!self.has_campaign_titled(title@));
        let campaign = Campaign {
            title,
            start_time,
            end_time,
            total_votes: 0,
            is_active: true,
            creator,
            banner_url,
            contestant_count: 0,
            platform_fee_percentage,
            top_voters: [None, None, None],
        };
        proof {
            lemma_lb_empty_wf(campaign.top_voters@);
        }
        self.campaigns.push(campaign);
        proof {
            assert forall|i2: int| 0 <= i2 < self.contestants@.len() implies #[trigger] self
                .contestant_linked(i2) by {
                assert(old(self).contestant_linked(i2));
            };
        }
        Ok(n)
    }

    /// Applies an optional-field patch to a campaign: each provided field
    /// is validated, and only when every one passes are they all applied;
    /// omitted fields are untouched. Only the creator may edit.
    pub fn edit_campaign(
        &mut self,
        caller: Principal,
        key: CampaignKey,
        end_time: Option<i64>,
        banner_url: Option<String>,
        platform_fee_percentage: Option<u8>,
        now: i64,
    ) -> (r: Result<(), ErrorCode>)
        requires
            old(self).wf(),
            key < old(self).campaigns@.len(),
        ensures
            final(self).wf(),
            match edit_campaign_error(
                old(self).campaigns@[key as int],
                caller,
                end_time,
                banner_url,
                platform_fee_percentage,
                now,
            ) {
                Some(e) => r == Err::<(), ErrorCode>(e) && *final(self) == *old(self),
                None => {
                    &&& r == Ok::<(), ErrorCode>(())
                    &&& final(self).campaigns@.len() == old(self).campaigns@.len()
                    &&& (forall|i: int|
                        0 <= i < old(self).campaigns@.len() && i != key as int
                            ==> final(self).campaigns@[i] == old(self).campaigns@[i])
                    &&& ({
                        let c0 = old(self).campaigns@[key as int];
                        let c = final(self).campaigns@[key as int];
                        &&& c.end_time == (match end_time {
                            Some(t) => t,
                            None => c0.end_time,
                        })
                        &&& c.banner_url@ == (match banner_url {
                            Some(u) => u@,
                            None => c0.banner_url@,
                        })
                        &&& c.platform_fee_percentage == (match platform_fee_percentage {
                            Some(p) => p,
                            None => c0.platform_fee_percentage,
                        })
                        &&& c.title == c0.title
                        &&& c.start_time == c0.start_time
                        &&& c.total_votes == c0.total_votes
                        &&& c.is_active == c0.is_active
                        &&& c.creator == c0.creator
                        &&& c.contestant_count == c0.contestant_count
                        &&& c.top_voters == c0.top_voters
                    })
                    &&& final(self).contestants == old(self).contestants
                    &&& final(self).voters == old(self).voters
                },
            },
    {
        let c = &self.campaigns[key];
        if c.creator != caller {
            return Err(ErrorCode::Unauthorized);
        }
        if let Some(t) = end_time {
            if !(t > now) {
                return Err(ErrorCode::InvalidEndTime);
            }
            if !(t > c.start_time) {
                return Err(ErrorCode::InvalidEndTime);
            }
        }
        if let Some(u) = &banner_url {
            if u.as_str().unicode_len() > 200 {
                return Err(ErrorCode::UrlTooLong);
            }
        }
        if let Some(p) = platform_fee_percentage {
            if p > 20 {
                return Err(ErrorCode::FeeTooHigh);
            }
        }
        let c = &mut self.campaigns[key];
        if let Some(t) = end_time {
            c.end_time = t;
        }
        if let Some(u) = banner_url {
            c.banner_url = u;
        }
        if let Some(p) = platform_fee_percentage {
            c.platform_fee_percentage = p;
        }
        proof {
            lemma_wf_campaign_update(*old(self), *self, key as int);
        }
        Ok(())
    }

    /// Pauses an active campaign; only the creator may pause.
    pub fn pause_campaign(&mut self, caller: Principal, key: CampaignKey) -> (r: Result<
        (),
        ErrorCode,
    >)
        requires
            old(self).wf(),
            key < old(self).campaigns@.len(),
        ensures
            final(self).wf(),
            match pause_campaign_error(old(self).campaigns@[key as int], caller) {
                Some(e) => r == Err::<(), ErrorCode>(e) && *final(self) == *old(self),
                None => {
                    &&& r == Ok::<(), ErrorCode>(())
                    &&& final(self).campaigns@.len() == old(self).campaigns@.len()
                    &&& (forall|i: int|
                        0 <= i < old(self).campaigns@.len() && i != key as int
                            ==> final(self).campaigns@[i] == old(self).campaigns@[i])
                    &&& final(self).campaigns@[key as int] == (Campaign {
                        is_active: false,
                        ..old(self).campaigns@[key as int]
                    })
                    &&& final(self).contestants == old(self).contestants
                    &&& final(self).voters == old(self).voters
                },
            },
    {
        let c = &self.campaigns[key];
        if c.creator != caller {
            return Err(ErrorCode::Unauthorized);
        }
        if !c.is_active {
            return Err(ErrorCode::CampaignAlreadyPaused);
        }
        let c = &mut self.campaigns[key];
        c.is_active = false;
        proof {
            lemma_wf_campaign_update(*old(self), *self, key as int);
        }
        Ok(())
    }

    /// Re-activates a paused campaign whose voting period has not ended;
    /// only the creator may activate.
    pub fn activate_campaign(&mut self, caller: Principal, key: CampaignKey, now: i64) -> (r:
        Result<(), ErrorCode>)
        requires
            old(self).wf(),
            key < old(self).campaigns@.len(),
        ensures
            final(self).wf(),
            match activate_campaign_error(old(self).campaigns@[key as int], caller, now) {
                Some(e) => r == Err::<(), ErrorCode>(e) && *final(self) == *old(self),
                None => {
                    &&& r == Ok::<(), ErrorCode>(())
                    &&& final(self).campaigns@.len() == old(self).campaigns@.len()
                    &&& (forall|i: int|
                        0 <= i < old(self).campaigns@.len() && i != key as int
                            ==> final(self).campaigns@[i] == old(self).campaigns@[i])
                    &&& final(self).campaigns@[key as int] == (Campaign {
                        is_active: true,
                        ..old(self).campaigns@[key as int]
                    })
                    &&& final(self).contestants == old(self).contestants
                    &&& final(self).voters == old(self).voters
                },
            },
    {
        let c = &self.campaigns[key];
        if c.creator != caller {
            return Err(ErrorCode::Unauthorized);
        }
        if c.is_active {
            return Err(ErrorCode::CampaignAlreadyActive);
        }
        if now >= c.end_time {
            return Err(ErrorCode::CampaignEnded);
        }
        let c = &mut self.campaigns[key];
        c.is_active = true;
        proof {
            lemma_wf_campaign_update(*old(self), *self, key as int);
        }
        Ok(())
    }

    /// Adds a contestant to a campaign and returns its key. The id is the
    /// campaign's current contestant count, assigned sequentially from 0
    /// and never reused; the count then grows by checked addition, capped
    /// at 50 contestants per campaign. Only the creator may add.
    pub fn add_contestant(
        &mut self,
        caller: Principal,
        key: CampaignKey,
        name: String,
        image_url: String,
        bio: String,
    ) -> (r: Result<ContestantKey, ErrorCode>)
        requires
            old(self).wf(),
            key < old(self).campaigns@.len(),
        ensures
            final(self).wf(),
            match add_contestant_error(
                old(self).campaigns@[key as int],
                caller,
                name@,
                image_url@,
                bio@,
            ) {
                Some(e) => r == Err::<ContestantKey, ErrorCode>(e) && *final(self) == *old(self),
                None => {
                    &&& r == Ok::<ContestantKey, ErrorCode>(old(self).contestants@.len() as usize)
                    &&& final(self).campaigns@.len() == old(self).campaigns@.len()
                    &&& (forall|i: int|
                        0 <= i < old(self).campaigns@.len() && i != key as int
                            ==> final(self).campaigns@[i] == old(self).campaigns@[i])
                    &&& final(self).campaigns@[key as int] == (Campaign {
                        contestant_count: (old(self).campaigns@[key as int].contestant_count + 1)
                            as u32,
                        ..old(self).campaigns@[key as int]
                    })
                    &&& final(self).contestants@.len() == old(self).contestants@.len() + 1
                    &&& (forall|i: int|
                        0 <= i < old(self).contestants@.len() ==> final(self).contestants@[i]
                            == old(self).contestants@[i])
                    &&& ({
                        let ct = final(self).contestants@.last();
                        &&& ct.campaign == key
                        &&& ct.contestant_id == old(self).campaigns@[key as int].contestant_count
                        &&& ct.name@ == name@
                        &&& ct.image_url@ == image_url@
                        &&& ct.bio@ == bio@
                        &&& ct.vote_count == 0
                    })
                    &&& final(self).voters == old(self).voters
                },
            },
    {
        let c = &self.campaigns[key];
        if c.creator != caller {
            return Err(ErrorCode::Unauthorized);
        }
        let name_len = name.as_str().unicode_len();
        if name_len == 0 || name_len > 50 {
            return Err(ErrorCode::InvalidName);
        }
        if image_url.as_str().unicode_len() > 200 {
            return Err(ErrorCode::UrlTooLong);
        }
        if bio.as_str().unicode_len() > 500 {
            return Err(ErrorCode::BioTooLong);
        }
        if c.contestant_count >= 50 {
            return Err(ErrorCode::TooManyContestants);
        }
        let contestant_id = c.contestant_count;
        let new_count = match c.contestant_count.checked_add(1) {
            Some(v) => v,
            None => {
                return Err(ErrorCode::ContestantOverflow);
            },
        };
        let contestant_key = self.contestants.len();
        self.contestants.push(
            Contestant { campaign: key, contestant_id, name, image_url, bio, vote_count: 0 },
        );
        let c = &mut self.campaigns[key];
        c.contestant_count = new_count;
        proof {
            assert forall|i: int| 0 <= i < self.campaigns@.len() implies (
            #[trigger] self.campaigns@[i]).wf() by {
                assert(old(self).campaigns@[i].wf());
            };
            assert forall|i: int, j: int| 0 <= i < j < self.campaigns@.len() implies (
            #[trigger] self.campaigns@[i]).title@ != (#[trigger] self.campaigns@[j]).title@ by {
                assert(old(self).campaigns@[i].title@ != old(self).campaigns@[j].title@);
            };
            assert forall|i: int| 0 <= i < self.contestants@.len() implies
                #[trigger] self.contestant_linked(i) by {
                if i < old(self).contestants@.len() {
                    assert(old(self).contestant_linked(i));
                }
            };
            assert forall|i: int, j: int| 0 <= i < j < self.contestants@.len() implies !((
            #[trigger] self.contestants@[i]).campaign == (#[trigger] self.contestants@[j]).campaign
                && self.contestants@[i].contestant_id == self.contestants@[j].contestant_id) by {
                if j < old(self).contestants@.len() {
                    assert(!(old(self).contestants@[i].campaign == old(
                        self,
                    ).contestants@[j].campaign && old(self).contestants@[i].contestant_id == old(
                        self,
                    ).contestants@[j].contestant_id));
                } else {
                    assert(old(self).contestant_linked(i));
                }
            };
            assert forall|i: int| 0 <= i < self.voters@.len() implies ((
            #[trigger] self.voters@[i]).campaign as int) < self.campaigns@.len() by {
                assert((old(self).voters@[i].campaign as int) < old(self).campaigns@.len());
            };
        }
        Ok(contestant_key)
    }

    /// Applies an optional-field patch to a contestant: each provided
    /// field is validated, and only when every one passes are they all
    /// applied; omitted fields are untouched. Only the campaign's creator
    /// may edit, and the contestant must belong to the named campaign.
    pub fn edit_contestant(
        &mut self,
        caller: Principal,
        campaign_key: CampaignKey,
        contestant_key: ContestantKey,
        name: Option<String>,
        image_url: Option<String>,
        bio: Option<String>,
    ) -> (r: Result<(), ErrorCode>)
        requires
            old(self).wf(),
            campaign_key < old(self).campaigns@.len(),
            contestant_key < old(self).contestants@.len(),
        ensures
            final(self).wf(),
            match edit_contestant_error(
                old(self).campaigns@[campaign_key as int],
                old(self).contestants@[contestant_key as int],
                campaign_key as int,
                caller,
                name,
                image_url,
                bio,
            ) {
                Some(e) => r == Err::<(), ErrorCode>(e) && *final(self) == *old(self),
                None => {
                    &&& r == Ok::<(), ErrorCode>(())
                    &&& final(self).campaigns == old(self).campaigns
                    &&& final(self).voters == old(self).voters
                    &&& final(self).contestants@.len() == old(self).contestants@.len()
                    &&& (forall|i: int|
                        0 <= i < old(self).contestants@.len() && i != contestant_key as int
                            ==> final(self).contestants@[i] == old(self).contestants@[i])
                    &&& ({
                        let ct0 = old(self).contestants@[contestant_key as int];
                        let ct = final(self).contestants@[contestant_key as int];
                        &&& ct.name@ == (match name {
                            Some(n) => n@,
                            None => ct0.name@,
                        })
                        &&& ct.image_url@ == (match image_url {
                            Some(u) => u@,
                            None => ct0.image_url@,
                        })
                        &&& ct.bio@ == (match bio {
                            Some(b) => b@,
                            None => ct0.bio@,
                        })
                        &&& ct.campaign == ct0.campaign
                        &&& ct.contestant_id == ct0.contestant_id
                        &&& ct.vote_count == ct0.vote_count
                    })
                },
            },
    {
        let c = &self.campaigns[campaign_key];
        if c.creator != caller {
            return Err(ErrorCode::Unauthorized);
        }
        let ct = &self.contestants[contestant_key];
        if ct.campaign != campaign_key {
            return Err(ErrorCode::InvalidContestant);
        }
        if let Some(n) = &name {
            let n_len = n.as_str().unicode_len();
            if n_len == 0 || n_len > 50 {
                return Err(ErrorCode::InvalidName);
            }
        }
        if let Some(u) = &image_url {
            if u.as_str().unicode_len() > 200 {
                return Err(ErrorCode::UrlTooLong);
            }
        }
        if let Some(b) = &bio {
            if b.as_str().unicode_len() > 500 {
                return Err(ErrorCode::BioTooLong);
            }
        }
        let ct = &mut self.contestants[contestant_key];
        if let Some(n) = name {
            ct.name = n;
        }
        if let Some(u) = image_url {
            ct.image_url = u;
        }
        if let Some(b) = bio {
            ct.bio = b;
        }
        proof {
            assert(old(self).contestant_linked(contestant_key as int));
            lemma_wf_contestant_update(*old(self), *self, contestant_key as int);
        }
        Ok(())
    }

    /// Looks up the voter record for this (campaign, principal) pair.
    #[verifier::loop_isolation(false)]
    fn find_voter(&self, campaign_key: CampaignKey, authority: Principal) -> (r: Option<usize>)
        requires
            self.wf(),
        ensures
            match r {
                Some(i) => {
                    &&& (i as int) < self.voters@.len()
                    &&& voter_matches(self.voters@[i as int], campaign_key as int, authority)
                    &&& self.has_voter(campaign_key as int, authority)
                    &&& self.voter_total(campaign_key as int, authority)
                        == self.voters@[i as int].total_usdc_voted
                },
                None => {
                    &&& !self.has_voter(campaign_key as int, authority)
                    &&& self.voter_total(campaign_key as int, authority) == 0
                },
            },
    {
        let n = self.voters.len();
        let mut i: usize = 0;
        while i < n
            invariant
                i <= n,
                forall|j: int|
                    0 <= j < i ==> !voter_matches(
                        #[trigger] self.voters@[j],
                        campaign_key as int,
                        authority,
                    ),
            decreases n - i,
        {
            let v = &self.voters[i];
            if v.campaign == campaign_key && v.voter_authority == authority {
                proof {
                    assert(self.has_voter(campaign_key as int, authority));
                    let j = self.voter_index(campaign_key as int, authority);
                    assert(voter_matches(self.voters@[j], campaign_key as int, authority));
                    if j != i as int {
                        assert(false);
                    }
                }
                return Some(i);
            }
            i += 1;
        }
        proof {
            if self.has_voter(campaign_key as int, authority) {
                let j = self.voter_index(campaign_key as int, authority);
                assert(voter_matches(self.voters@[j], campaign_key as int, authority));
                assert(false);
            }
        }
        None
    }

    /// Validates a vote and computes its fee split without touching any
    /// record: the read-only half of the vote protocol.
    ///
    /// The caller first prepares, then hands the two transfer amounts to
    /// the external value ledger, and only after both transfers are
    /// accepted commits the counters with `cast_vote`; its checks are
    /// exactly these, so a vote this function accepts is committed with
    /// the same split, and a rejected transfer simply means `cast_vote`
    /// is never reached and no record changes.
    pub fn prepare_vote(
        &self,
        campaign_key: CampaignKey,
        contestant_key: ContestantKey,
        voter_authority: Principal,
        amount: u64,
        now: i64,
    ) -> (r: Result<FeeSplit, ErrorCode>)
        requires
            self.wf(),
            campaign_key < self.campaigns@.len(),
            contestant_key < self.contestants@.len(),
        ensures
            match self.vote_error(
                campaign_key as int,
                contestant_key as int,
                voter_authority,
                amount,
                now,
            ) {
                Some(e) => r == Err::<FeeSplit, ErrorCode>(e),
                None => r == Ok::<FeeSplit, ErrorCode>(
                    self.vote_split(campaign_key as int, amount),
                ),
            },
    {
        let c = &self.campaigns[campaign_key];
        if !c.is_active {
            return Err(ErrorCode::CampaignNotActiveOrEnded);
        }
        if now < c.start_time {
            return Err(ErrorCode::CampaignNotStarted);
        }
        if now > c.end_time {
            return Err(ErrorCode::CampaignNotActiveOrEnded);
        }
        if amount == 0 {
            return Err(ErrorCode::ZeroAmount);
        }
        let ct = &self.contestants[contestant_key];
        if ct.campaign != campaign_key {
            return Err(ErrorCode::InvalidContestant);
        }
        proof {
            assert(self.campaigns@[campaign_key as int].wf());
        }
        let split = match compute_fee_split(amount, c.platform_fee_percentage) {
            Ok(s) => s,
            Err(e) => {
                return Err(e);
            },
        };
        if c.total_votes.checked_add(split.net).is_none() {
            return Err(ErrorCode::VoteOverflow);
        }
        let old_voter_total = match self.find_voter(campaign_key, voter_authority) {
            Some(i) => self.voters[i].total_usdc_voted,
            None => 0,
        };
        if old_voter_total.checked_add(split.net).is_none() {
            return Err(ErrorCode::VoteOverflow);
        }
        if ct.vote_count.checked_add(split.net).is_none() {
            return Err(ErrorCode::VoteOverflow);
        }
        Ok(split)
    }

    /// Commits an accepted vote: the transactional half of the vote
    /// protocol, run after the external ledger has accepted the vote's
    /// transfers (`prepare_vote` validates the same conditions first).
    ///
    /// On success the net amount is added to the campaign's, the
    /// contestant's and the voter's counters — none of which ever
    /// decreases — the voter record is created on first contact, and the
    /// leaderboard is updated with the voter's new cumulative total. Any
    /// failure leaves the store exactly as it was.
    pub fn cast_vote(
        &mut self,
        campaign_key: CampaignKey,
        contestant_key: ContestantKey,
        voter_authority: Principal,
        amount: u64,
        now: i64,
    ) -> (r: Result<FeeSplit, ErrorCode>)
        requires
            old(self).wf(),
            campaign_key < old(self).campaigns@.len(),
            contestant_key < old(self).contestants@.len(),
        ensures
            final(self).wf(),
            final(self).campaigns@.len() == old(self).campaigns@.len(),
            final(self).contestants@.len() == old(self).contestants@.len(),
            final(self).campaigns@[campaign_key as int].total_votes >= old(
                self,
            ).campaigns@[campaign_key as int].total_votes,
            final(self).contestants@[contestant_key as int].vote_count >= old(
                self,
            ).contestants@[contestant_key as int].vote_count,
            final(self).voter_total(campaign_key as int, voter_authority) >= old(
                self,
            ).voter_total(campaign_key as int, voter_authority),
            match old(self).vote_error(
                campaign_key as int,
                contestant_key as int,
                voter_authority,
                amount,
                now,
            ) {
                Some(e) => r == Err::<FeeSplit, ErrorCode>(e) && *final(self) == *old(self),
                None => ({
                    let split = old(self).vote_split(campaign_key as int, amount);
                    let new_total = (old(self).voter_total(campaign_key as int, voter_authority)
                        + split.net) as u64;
                    &&& r == Ok::<FeeSplit, ErrorCode>(split)
                    &&& split.fee as int + split.net as int == amount as int
                    &&& (forall|i: int|
                        0 <= i < old(self).campaigns@.len() && i != campaign_key as int
                            ==> final(self).campaigns@[i] == old(self).campaigns@[i])
                    &&& ({
                        let c0 = old(self).campaigns@[campaign_key as int];
                        let c1 = final(self).campaigns@[campaign_key as int];
                        &&& c1.total_votes == c0.total_votes + split.net
                        &&& c1.top_voters@ == lb_update(c0.top_voters@, voter_authority, new_total)
                        &&& c1.title == c0.title
                        &&& c1.start_time == c0.start_time
                        &&& c1.end_time == c0.end_time
                        &&& c1.is_active == c0.is_active
                        &&& c1.creator == c0.creator
                        &&& c1.banner_url == c0.banner_url
                        &&& c1.contestant_count == c0.contestant_count
                        &&& c1.platform_fee_percentage == c0.platform_fee_percentage
                    })
                    &&& (forall|i: int|
                        0 <= i < old(self).contestants@.len() && i != contestant_key as int
                            ==> final(self).contestants@[i] == old(self).contestants@[i])
                    &&& ({
                        let t0 = old(self).contestants@[contestant_key as int];
                        let t1 = final(self).contestants@[contestant_key as int];
                        &&& t1.vote_count == t0.vote_count + split.net
                        &&& t1.campaign == t0.campaign
                        &&& t1.contestant_id == t0.contestant_id
                        &&& t1.name == t0.name
                        &&& t1.image_url == t0.image_url
                        &&& t1.bio == t0.bio
                    })
                    &&& final(self).voter_total(campaign_key as int, voter_authority) == new_total
                    &&& (old(self).has_voter(campaign_key as int, voter_authority) ==> {
                        &&& final(self).voters@.len() == old(self).voters@.len()
                        &&& (forall|j: int|
                            0 <= j < old(self).voters@.len() && !voter_matches(
                                old(self).voters@[j],
                                campaign_key as int,
                                voter_authority,
                            ) ==> final(self).voters@[j] == old(self).voters@[j])
                    })
                    &&& (!old(self).has_voter(campaign_key as int, voter_authority)
                        ==> final(self).voters@ == old(self).voters@.push(
                        Voter {
                            campaign: campaign_key,
                            voter_authority,
                            total_usdc_voted: split.net,
                        },
                    ))
                }),
            },
    {
        let c = &self.campaigns[campaign_key];
        if !c.is_active {
            return Err(ErrorCode::CampaignNotActiveOrEnded);
        }
        if now < c.start_time {
            return Err(ErrorCode::CampaignNotStarted);
        }
        if now > c.end_time {
            return Err(ErrorCode::CampaignNotActiveOrEnded);
        }
        if amount == 0 {
            return Err(ErrorCode::ZeroAmount);
        }
        let c_total_votes = c.total_votes;
        let c_pct = c.platform_fee_percentage;
        let ct = &self.contestants[contestant_key];
        if ct.campaign != campaign_key {
            return Err(ErrorCode::InvalidContestant);
        }
        let ct_vote_count = ct.vote_count;
        proof {
            assert(self.campaigns@[campaign_key as int].wf());
        }
        let split = match compute_fee_split(amount, c_pct) {
            Ok(s) => s,
            Err(e) => {
                return Err(e);
            },
        };
        let new_total_votes = match c_total_votes.checked_add(split.net) {
            Some(v) => v,
            None => {
                return Err(ErrorCode::VoteOverflow);
            },
        };
        let found = self.find_voter(campaign_key, voter_authority);
        let old_voter_total = match found {
            Some(i) => self.voters[i].total_usdc_voted,
            None => 0,
        };
        let new_voter_total = match old_voter_total.checked_add(split.net) {
            Some(v) => v,
            None => {
                return Err(ErrorCode::VoteOverflow);
            },
        };
        let new_vote_count = match ct_vote_count.checked_add(split.net) {
            Some(v) => v,
            None => {
                return Err(ErrorCode::VoteOverflow);
            },
        };
        let camp = &mut self.campaigns[campaign_key];
        camp.total_votes = new_total_votes;
        update_top_voters(camp, voter_authority, new_voter_total);
        let ctm = &mut self.contestants[contestant_key];
        ctm.vote_count = new_vote_count;
        match found {
            Some(i) => {
                let v = &mut self.voters[i];
                v.total_usdc_voted = new_voter_total;
            },
            None => {
                self.voters.push(
                    Voter { campaign: campaign_key, voter_authority, total_usdc_voted: split.net },
                );
            },
        }
        proof {
            let ck = campaign_key as int;
            let ctk = contestant_key as int;
            let s0 = *old(self);
            lemma_lb_update_wf(s0.campaigns@[ck].top_voters@, voter_authority, new_voter_total);
            assert(self.campaigns@[ck].wf());
            assert forall|i: int| 0 <= i < self.campaigns@.len() implies (
            #[trigger] self.campaigns@[i]).wf() by {
                assert(s0.campaigns@[i].wf());
            };
            assert forall|i: int, j: int| 0 <= i < j < self.campaigns@.len() implies (
            #[trigger] self.campaigns@[i]).title@ != (#[trigger] self.campaigns@[j]).title@ by {
                assert(s0.campaigns@[i].title@ != s0.campaigns@[j].title@);
            };
            assert forall|i: int| 0 <= i < self.contestants@.len() implies
                #[trigger] self.contestant_linked(i) by {
                assert(s0.contestant_linked(i));
            };
            assert forall|i: int, j: int| 0 <= i < j < self.contestants@.len() implies !((
            #[trigger] self.contestants@[i]).campaign == (#[trigger] self.contestants@[j]).campaign
                && self.contestants@[i].contestant_id == self.contestants@[j].contestant_id) by {
                assert(!(s0.contestants@[i].campaign == s0.contestants@[j].campaign
                    && s0.contestants@[i].contestant_id == s0.contestants@[j].contestant_id));
            };
            match found {
                Some(i) => {
                    assert forall|j: int| 0 <= j < self.voters@.len() implies ((
                    #[trigger] self.voters@[j]).campaign as int) < self.campaigns@.len() by {
                        assert((s0.voters@[j].campaign as int) < s0.campaigns@.len());
                    };
                    assert forall|j: int, j2: int| 0 <= j < j2 < self.voters@.len() implies !((
                    #[trigger] self.voters@[j]).campaign == (#[trigger] self.voters@[j2]).campaign
                        && self.voters@[j].voter_authority
                        == self.voters@[j2].voter_authority) by {
                        assert(!(s0.voters@[j].campaign == s0.voters@[j2].campaign
                            && s0.voters@[j].voter_authority == s0.voters@[j2].voter_authority));
                    };
                    assert(voter_matches(self.voters@[i as int], ck, voter_authority));
                    assert(self.has_voter(ck, voter_authority));
                    let j = self.voter_index(ck, voter_authority);
                    assert(voter_matches(self.voters@[j], ck, voter_authority));
                    if j != i as int {
                        let lo = if j < i as int { j } else { i as int };
                        let hi = if j < i as int { i as int } else { j };
                        assert(voter_matches(s0.voters@[lo], ck, voter_authority));
                        assert(voter_matches(s0.voters@[hi], ck, voter_authority));
                        assert(false);
                    }
                    assert(self.voter_total(ck, voter_authority) == new_voter_total);
                },
                None => {
                    let n0 = s0.voters@.len() as int;
                    assert forall|j: int| 0 <= j < self.voters@.len() implies ((
                    #[trigger] self.voters@[j]).campaign as int) < self.campaigns@.len() by {
                        if j < n0 {
                            assert((s0.voters@[j].campaign as int) < s0.campaigns@.len());
                        }
                    };
                    assert forall|j: int, j2: int| 0 <= j < j2 < self.voters@.len() implies !((
                    #[trigger] self.voters@[j]).campaign == (#[trigger] self.voters@[j2]).campaign
                        && self.voters@[j].voter_authority
                        == self.voters@[j2].voter_authority) by {
                        if j2 < n0 {
                            assert(!(s0.voters@[j].campaign == s0.voters@[j2].campaign
                                && s0.voters@[j].voter_authority
                                == s0.voters@[j2].voter_authority));
                        } else {
                            if voter_matches(s0.voters@[j], ck, voter_authority) {
                                assert(s0.has_voter(ck, voter_authority));
                            }
                        }
                    };
                    assert(voter_matches(self.voters@[n0], ck, voter_authority));
                    assert(self.has_voter(ck, voter_authority));
                    let j = self.voter_index(ck, voter_authority);
                    assert(voter_matches(self.voters@[j], ck, voter_authority));
                    if j != n0 {
                        if voter_matches(s0.voters@[j], ck, voter_authority) {
                            assert(s0.has_voter(ck, voter_authority));
                        }
                        assert(false);
                    }
                    assert(self.voter_total(ck, voter_authority) == new_voter_total);
                },
            }
        }
        Ok(split)
    }
}

} // verus!
