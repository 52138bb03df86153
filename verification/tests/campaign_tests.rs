use fanvote::errors::ErrorCode;
use fanvote::store::RecordStore;

const NOW: i64 = 1_000_000;
const CREATOR: u64 = 11;
const STRANGER: u64 = 99;

fn fresh_store_with_campaign() -> (RecordStore, usize) {
    let mut store = RecordStore::new();
    let key = store
        .create_campaign(
            CREATOR,
            String::from("spring cup"),
            NOW - 1,
            NOW + 1000,
            String::from("https://example.org/banner.png"),
            10,
            NOW,
        )
        .unwrap();
    (store, key)
}

#[test]
fn create_campaign_sets_all_fields() {
    let (store, key) = fresh_store_with_campaign();
    let c = &store.campaigns[key];
    assert_eq!(c.title, "spring cup");
    assert_eq!(c.start_time, NOW - 1);
    assert_eq!(c.end_time, NOW + 1000);
    assert_eq!(c.total_votes, 0);
    assert!(c.is_active);
    assert_eq!(c.creator, CREATOR);
    assert_eq!(c.banner_url, "https://example.org/banner.png");
    assert_eq!(c.contestant_count, 0);
    assert_eq!(c.platform_fee_percentage, 10);
    assert_eq!(c.top_voters, [None, None, None]);
}

#[test]
fn create_campaign_rejects_bad_inputs() {
    let mut store = RecordStore::new();
    let long_title = "t".repeat(101);
    let long_url = "u".repeat(201);
    let r = store.create_campaign(CREATOR, long_title, NOW, NOW + 10, String::new(), 0, NOW);
    assert_eq!(r, Err(ErrorCode::TitleTooLong));
    let r = store.create_campaign(CREATOR, String::from("a"), NOW, NOW + 10, long_url, 0, NOW);
    assert_eq!(r, Err(ErrorCode::UrlTooLong));
    let r = store.create_campaign(CREATOR, String::from("a"), NOW, NOW + 10, String::new(), 21, NOW);
    assert_eq!(r, Err(ErrorCode::FeeTooHigh));
    let r = store.create_campaign(CREATOR, String::from("a"), NOW + 10, NOW + 10, String::new(), 0, NOW);
    assert_eq!(r, Err(ErrorCode::InvalidTimeRange));
    let r = store.create_campaign(CREATOR, String::from("a"), NOW - 10, NOW, String::new(), 0, NOW);
    assert_eq!(r, Err(ErrorCode::EndTimeInPast));
    assert_eq!(store.campaigns.len(), 0);
}

#[test]
fn create_campaign_rejects_duplicate_title() {
    let (mut store, _key) = fresh_store_with_campaign();
    let r = store.create_campaign(
        STRANGER,
        String::from("spring cup"),
        NOW,
        NOW + 99,
        String::new(),
        0,
        NOW,
    );
    assert_eq!(r, Err(ErrorCode::DuplicateCampaign));
    assert_eq!(store.campaigns.len(), 1);
}

#[test]
fn edit_campaign_by_non_creator_fails_unauthorized_state_unchanged() {
    let (mut store, key) = fresh_store_with_campaign();
    let before = store.campaigns[key].clone();
    let r = store.edit_campaign(
        STRANGER,
        key,
        Some(NOW + 5000),
        Some(String::from("other")),
        Some(0),
        NOW,
    );
    assert_eq!(r, Err(ErrorCode::Unauthorized));
    assert_eq!(store.campaigns[key], before);
}

#[test]
fn edit_campaign_applies_provided_fields() {
    let (mut store, key) = fresh_store_with_campaign();
    let r = store.edit_campaign(CREATOR, key, Some(NOW + 2000), None, Some(5), NOW);
    assert_eq!(r, Ok(()));
    let c = &store.campaigns[key];
    assert_eq!(c.end_time, NOW + 2000);
    assert_eq!(c.banner_url, "https://example.org/banner.png");
    assert_eq!(c.platform_fee_percentage, 5);
}

#[test]
fn edit_campaign_rejects_bad_end_time() {
    let (mut store, key) = fresh_store_with_campaign();
    let r = store.edit_campaign(CREATOR, key, Some(NOW - 5), None, None, NOW);
    assert_eq!(r, Err(ErrorCode::InvalidEndTime));
    let early: i64 = NOW - 500;
    let r = store.edit_campaign(CREATOR, key, Some(early), None, None, NOW - 600);
    assert_eq!(r, Err(ErrorCode::InvalidEndTime));
    assert_eq!(store.campaigns[key].end_time, NOW + 1000);
}

#[test]
fn edit_campaign_partial_failure_applies_nothing() {
    let (mut store, key) = fresh_store_with_campaign();
    let before = store.campaigns[key].clone();
    let long_url = "u".repeat(201);
    let r = store.edit_campaign(CREATOR, key, Some(NOW + 2000), Some(long_url), Some(3), NOW);
    assert_eq!(r, Err(ErrorCode::UrlTooLong));
    assert_eq!(store.campaigns[key], before);
}

#[test]
fn pause_and_activate_toggle_with_state_errors() {
    let (mut store, key) = fresh_store_with_campaign();
    assert_eq!(store.pause_campaign(STRANGER, key), Err(ErrorCode::Unauthorized));
    assert_eq!(store.pause_campaign(CREATOR, key), Ok(()));
    assert!(!store.campaigns[key].is_active);
    assert_eq!(store.pause_campaign(CREATOR, key), Err(ErrorCode::CampaignAlreadyPaused));
    assert_eq!(store.activate_campaign(STRANGER, key, NOW), Err(ErrorCode::Unauthorized));
    assert_eq!(store.activate_campaign(CREATOR, key, NOW), Ok(()));
    assert!(store.campaigns[key].is_active);
    assert_eq!(store.activate_campaign(CREATOR, key, NOW), Err(ErrorCode::CampaignAlreadyActive));
}

#[test]
fn activate_after_end_fails_campaign_ended() {
    let (mut store, key) = fresh_store_with_campaign();
    assert_eq!(store.pause_campaign(CREATOR, key), Ok(()));
    let late: i64 = NOW + 1000;
    assert_eq!(store.activate_campaign(CREATOR, key, late), Err(ErrorCode::CampaignEnded));
    assert!(!store.campaigns[key].is_active);
}

#[test]
fn add_contestant_assigns_sequential_ids() {
    let (mut store, key) = fresh_store_with_campaign();
    let c0 = store
        .add_contestant(CREATOR, key, String::from("alice"), String::new(), String::new())
        .unwrap();
    let c1 = store
        .add_contestant(CREATOR, key, String::from("bob"), String::new(), String::new())
        .unwrap();
    assert_eq!(store.contestants[c0].contestant_id, 0);
    assert_eq!(store.contestants[c1].contestant_id, 1);
    assert_eq!(store.contestants[c0].campaign, key);
    assert_eq!(store.contestants[c0].name, "alice");
    assert_eq!(store.contestants[c0].vote_count, 0);
    assert_eq!(store.campaigns[key].contestant_count, 2);
}

#[test]
fn add_contestant_rejects_bad_inputs() {
    let (mut store, key) = fresh_store_with_campaign();
    let r = store.add_contestant(STRANGER, key, String::from("x"), String::new(), String::new());
    assert_eq!(r, Err(ErrorCode::Unauthorized));
    let r = store.add_contestant(CREATOR, key, String::new(), String::new(), String::new());
    assert_eq!(r, Err(ErrorCode::InvalidName));
    let r = store.add_contestant(CREATOR, key, "n".repeat(51), String::new(), String::new());
    assert_eq!(r, Err(ErrorCode::InvalidName));
    let r = store.add_contestant(CREATOR, key, String::from("x"), "u".repeat(201), String::new());
    assert_eq!(r, Err(ErrorCode::UrlTooLong));
    let r = store.add_contestant(CREATOR, key, String::from("x"), String::new(), "b".repeat(501));
    assert_eq!(r, Err(ErrorCode::BioTooLong));
    assert_eq!(store.contestants.len(), 0);
    assert_eq!(store.campaigns[key].contestant_count, 0);
}

#[test]
fn add_contestant_fifty_first_fails_too_many() {
    let (mut store, key) = fresh_store_with_campaign();
    for i in 0..50u32 {
        let name = format!("contestant {}", i);
        let r = store.add_contestant(CREATOR, key, name, String::new(), String::new());
        assert!(r.is_ok());
    }
    assert_eq!(store.campaigns[key].contestant_count, 50);
    let r = store.add_contestant(CREATOR, key, String::from("late"), String::new(), String::new());
    assert_eq!(r, Err(ErrorCode::TooManyContestants));
    assert_eq!(store.campaigns[key].contestant_count, 50);
    assert_eq!(store.contestants.len(), 50);
}

#[test]
fn edit_contestant_applies_patch() {
    let (mut store, key) = fresh_store_with_campaign();
    let ck = store
        .add_contestant(CREATOR, key, String::from("alice"), String::new(), String::new())
        .unwrap();
    let r = store.edit_contestant(
        CREATOR,
        key,
        ck,
        Some(String::from("alicia")),
        None,
        Some(String::from("singer")),
    );
    assert_eq!(r, Ok(()));
    assert_eq!(store.contestants[ck].name, "alicia");
    assert_eq!(store.contestants[ck].image_url, "");
    assert_eq!(store.contestants[ck].bio, "singer");
}

#[test]
fn edit_contestant_rejects_wrong_campaign_and_caller() {
    let (mut store, key) = fresh_store_with_campaign();
    let other = store
        .create_campaign(CREATOR, String::from("autumn cup"), NOW - 1, NOW + 1000, String::new(), 0, NOW)
        .unwrap();
    let ck = store
        .add_contestant(CREATOR, key, String::from("alice"), String::new(), String::new())
        .unwrap();
    let r = store.edit_contestant(STRANGER, key, ck, Some(String::from("b")), None, None);
    assert_eq!(r, Err(ErrorCode::Unauthorized));
    let r = store.edit_contestant(CREATOR, other, ck, Some(String::from("b")), None, None);
    assert_eq!(r, Err(ErrorCode::InvalidContestant));
    let r = store.edit_contestant(CREATOR, key, ck, Some(String::new()), None, None);
    assert_eq!(r, Err(ErrorCode::InvalidName));
    assert_eq!(store.contestants[ck].name, "alice");
}
