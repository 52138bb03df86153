use fanvote::errors::ErrorCode;
use fanvote::fee::{compute_fee_split, FeeSplit};
use fanvote::leaderboard::update_top_voters;
use fanvote::records::TopVoter;
use fanvote::store::RecordStore;
use fanvote::treasury::{treasury_authority, withdraw_fees, TransferRequest};

const NOW: i64 = 1_000_000;
const CREATOR: u64 = 11;

fn campaign_with_contestant(fee_pct: u8) -> (RecordStore, usize, usize) {
    let mut store = RecordStore::new();
    let key = store
        .create_campaign(
            CREATOR,
            String::from("finals"),
            NOW - 1,
            NOW + 1000,
            String::new(),
            fee_pct,
            NOW,
        )
        .unwrap();
    let ck = store
        .add_contestant(CREATOR, key, String::from("alice"), String::new(), String::new())
        .unwrap();
    (store, key, ck)
}

#[test]
fn fee_split_exact_values() {
    assert_eq!(compute_fee_split(100, 10), Ok(FeeSplit { fee: 10, net: 90 }));
    assert_eq!(compute_fee_split(250, 20), Ok(FeeSplit { fee: 50, net: 200 }));
    assert_eq!(compute_fee_split(1, 20), Ok(FeeSplit { fee: 0, net: 1 }));
    assert_eq!(compute_fee_split(99, 1), Ok(FeeSplit { fee: 0, net: 99 }));
    assert_eq!(compute_fee_split(0, 20), Ok(FeeSplit { fee: 0, net: 0 }));
    assert_eq!(compute_fee_split(u64::MAX, 0), Ok(FeeSplit { fee: 0, net: u64::MAX }));
}

#[test]
fn fee_split_overflow_is_reported() {
    assert_eq!(compute_fee_split(u64::MAX, 20), Err(ErrorCode::InvalidFeeCalculation));
    assert_eq!(compute_fee_split(u64::MAX / 2, 3), Err(ErrorCode::InvalidFeeCalculation));
}

#[test]
fn vote_before_start_fails_not_started_and_after_end_fails_ended() {
    let mut store = RecordStore::new();
    let key = store
        .create_campaign(
            CREATOR,
            String::from("later"),
            NOW + 100,
            NOW + 1000,
            String::new(),
            10,
            NOW,
        )
        .unwrap();
    let ck = store
        .add_contestant(CREATOR, key, String::from("alice"), String::new(), String::new())
        .unwrap();
    assert_eq!(
        store.cast_vote(key, ck, 7, 100, NOW),
        Err(ErrorCode::CampaignNotStarted)
    );
    let late: i64 = NOW + 1001;
    assert_eq!(
        store.cast_vote(key, ck, 7, 100, late),
        Err(ErrorCode::CampaignNotActiveOrEnded)
    );
    assert_eq!(store.campaigns[key].total_votes, 0);
    assert_eq!(store.voters.len(), 0);
}

#[test]
fn vote_scenario_ten_percent_fee() {
    let (mut store, key, ck) = campaign_with_contestant(10);
    let split = store.cast_vote(key, ck, 7, 100, NOW).unwrap();
    assert_eq!(split, FeeSplit { fee: 10, net: 90 });
    assert_eq!(store.contestants[ck].vote_count, 90);
    assert_eq!(store.campaigns[key].total_votes, 90);
    assert_eq!(store.voters.len(), 1);
    assert_eq!(store.voters[0].campaign, key);
    assert_eq!(store.voters[0].voter_authority, 7);
    assert_eq!(store.voters[0].total_usdc_voted, 90);
    assert_eq!(
        store.campaigns[key].top_voters[0],
        Some(TopVoter { voter: 7, total_voted: 90 })
    );
}

#[test]
fn four_voters_leaderboard_keeps_top_three() {
    let (mut store, key, ck) = campaign_with_contestant(0);
    assert!(store.cast_vote(key, ck, 1, 50, NOW).is_ok());
    assert!(store.cast_vote(key, ck, 2, 40, NOW).is_ok());
    assert!(store.cast_vote(key, ck, 3, 30, NOW).is_ok());
    assert!(store.cast_vote(key, ck, 4, 20, NOW).is_ok());
    let top = store.campaigns[key].top_voters;
    assert_eq!(top[0], Some(TopVoter { voter: 1, total_voted: 50 }));
    assert_eq!(top[1], Some(TopVoter { voter: 2, total_voted: 40 }));
    assert_eq!(top[2], Some(TopVoter { voter: 3, total_voted: 30 }));
}

#[test]
fn repeat_votes_accumulate_and_keep_one_slot() {
    let (mut store, key, ck) = campaign_with_contestant(0);
    assert!(store.cast_vote(key, ck, 1, 10, NOW).is_ok());
    assert!(store.cast_vote(key, ck, 2, 25, NOW).is_ok());
    assert!(store.cast_vote(key, ck, 1, 20, NOW).is_ok());
    assert_eq!(store.voters.len(), 2);
    assert_eq!(store.voters[0].total_usdc_voted, 30);
    let top = store.campaigns[key].top_voters;
    assert_eq!(top[0], Some(TopVoter { voter: 1, total_voted: 30 }));
    assert_eq!(top[1], Some(TopVoter { voter: 2, total_voted: 25 }));
    assert_eq!(top[2], None);
}

#[test]
fn smaller_newcomer_displaces_smallest_slot_only_if_larger() {
    let (mut store, key, ck) = campaign_with_contestant(0);
    assert!(store.cast_vote(key, ck, 1, 10, NOW).is_ok());
    assert!(store.cast_vote(key, ck, 2, 20, NOW).is_ok());
    assert!(store.cast_vote(key, ck, 3, 30, NOW).is_ok());
    assert!(store.cast_vote(key, ck, 4, 25, NOW).is_ok());
    let top = store.campaigns[key].top_voters;
    assert_eq!(top[0], Some(TopVoter { voter: 3, total_voted: 30 }));
    assert_eq!(top[1], Some(TopVoter { voter: 4, total_voted: 25 }));
    assert_eq!(top[2], Some(TopVoter { voter: 2, total_voted: 20 }));
    assert!(store.cast_vote(key, ck, 5, 15, NOW).is_ok());
    assert_eq!(store.campaigns[key].top_voters, top);
}

#[test]
fn update_top_voters_is_idempotent_once_placed() {
    let (mut store, key, ck) = campaign_with_contestant(0);
    assert!(store.cast_vote(key, ck, 1, 40, NOW).is_ok());
    let mut campaign = store.campaigns[key].clone();
    update_top_voters(&mut campaign, 1, 40);
    assert_eq!(campaign.top_voters, store.campaigns[key].top_voters);
    update_top_voters(&mut campaign, 1, 40);
    assert_eq!(campaign.top_voters, store.campaigns[key].top_voters);
}

#[test]
fn vote_rejects_paused_zero_and_foreign_contestant() {
    let (mut store, key, ck) = campaign_with_contestant(10);
    let other = store
        .create_campaign(CREATOR, String::from("other"), NOW - 1, NOW + 1000, String::new(), 10, NOW)
        .unwrap();
    let other_ck = store
        .add_contestant(CREATOR, other, String::from("bob"), String::new(), String::new())
        .unwrap();
    assert_eq!(store.cast_vote(key, ck, 7, 0, NOW), Err(ErrorCode::ZeroAmount));
    assert_eq!(
        store.cast_vote(key, other_ck, 7, 100, NOW),
        Err(ErrorCode::InvalidContestant)
    );
    assert_eq!(store.pause_campaign(CREATOR, key), Ok(()));
    assert_eq!(
        store.cast_vote(key, ck, 7, 100, NOW),
        Err(ErrorCode::CampaignNotActiveOrEnded)
    );
    assert_eq!(store.campaigns[key].total_votes, 0);
    assert_eq!(store.contestants[ck].vote_count, 0);
}

#[test]
fn vote_fee_overflow_and_counter_overflow() {
    let (mut store, key, ck) = campaign_with_contestant(20);
    assert_eq!(
        store.cast_vote(key, ck, 7, u64::MAX, NOW),
        Err(ErrorCode::InvalidFeeCalculation)
    );
    let (mut store, key, ck) = campaign_with_contestant(0);
    assert!(store.cast_vote(key, ck, 7, u64::MAX, NOW).is_ok());
    assert_eq!(store.campaigns[key].total_votes, u64::MAX);
    assert_eq!(store.cast_vote(key, ck, 8, 1, NOW), Err(ErrorCode::VoteOverflow));
    assert_eq!(store.campaigns[key].total_votes, u64::MAX);
    assert_eq!(store.voters.len(), 1);
}

#[test]
fn counters_never_decrease_across_votes() {
    let (mut store, key, ck) = campaign_with_contestant(10);
    let mut last_campaign: u64 = 0;
    let mut last_contestant: u64 = 0;
    for (voter, amount) in [(1u64, 100u64), (2, 55), (1, 7), (3, 1), (2, 900)] {
        assert!(store.cast_vote(key, ck, voter, amount, NOW).is_ok());
        assert!(store.campaigns[key].total_votes >= last_campaign);
        assert!(store.contestants[ck].vote_count >= last_contestant);
        last_campaign = store.campaigns[key].total_votes;
        last_contestant = store.contestants[ck].vote_count;
    }
}

#[test]
fn prepare_vote_agrees_with_cast_vote() {
    let (mut store, key, ck) = campaign_with_contestant(10);
    let prepared = store.prepare_vote(key, ck, 7, 100, NOW);
    let cast = store.cast_vote(key, ck, 7, 100, NOW);
    assert_eq!(prepared, cast);
    assert_eq!(
        store.prepare_vote(key, ck, 7, 0, NOW),
        Err(ErrorCode::ZeroAmount)
    );
}

#[test]
fn withdraw_fees_requires_treasury_authority() {
    let authority = treasury_authority();
    let r = withdraw_fees(authority, 500, 501, 77);
    assert_eq!(
        r,
        Ok(TransferRequest { source: 500, dest: 501, authority, amount: 77 })
    );
    assert_eq!(withdraw_fees(authority + 1, 500, 501, 77), Err(ErrorCode::Unauthorized));
}
