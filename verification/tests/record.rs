use ad_click_aggregator::get_all_stats;
use ad_click_aggregator::get_campaign_stats;
use ad_click_aggregator::record_click;
use ad_click_aggregator::AggregationResult;
use ad_click_aggregator::AppState;
use ad_click_aggregator::CampaignStats;
use ad_click_aggregator::ClickError;
use ad_click_aggregator::ClickEvent;
use ad_click_aggregator::ClickRate;
use ad_click_aggregator::Timestamp;
use chrono::DateTime;
use chrono::Utc;
use uuid::Uuid;

/// 2024-01-01T00:00:00Z as Unix seconds.
const T0: i64 = 1_704_067_200;

fn at(secs: i64) -> Timestamp {
    Timestamp::new(secs, 0).unwrap()
}

fn click(campaign: &str, user: &str, timestamp: Timestamp) -> ClickEvent {
    ClickEvent {
        campaign_id: campaign.to_string(),
        user_id: user.to_string(),
        timestamp,
        ip_address: "203.0.113.7".to_string(),
        user_agent: "tests".to_string(),
    }
}

fn per_second(rate: ClickRate) -> f64 {
    rate.clicks as f64 / rate.seconds as f64
}

fn stats_of<'a>(dump: &'a [(String, CampaignStats)], campaign: &str) -> &'a CampaignStats {
    let mut found = dump.iter().filter(|(id, _)| id == campaign);
    let stats = &found.next().unwrap().1;
    assert!(found.next().is_none());
    stats
}

#[test]
fn test_record_click() {
    let mut state = AppState::new();
    let now = Utc::now();
    let click = ClickEvent {
        campaign_id: "test_campaign".to_string(),
        user_id: Uuid::new_v4().to_string(),
        timestamp: Timestamp::new(now.timestamp(), now.timestamp_subsec_nanos()).unwrap(),
        ip_address: "127.0.0.1".to_string(),
        user_agent: "test".to_string(),
    };

    let response = record_click(&mut state, click).unwrap();
    assert_eq!(response.total_clicks, 1);
    assert_eq!(response.unique_users, 1);
}

#[test]
fn counter_equals_number_of_recorded_clicks() {
    let mut state = AppState::new();
    for n in 1..=25u64 {
        let user = format!("user{}", n % 4);
        let result = record_click(&mut state, click("spring", &user, at(T0 + n as i64))).unwrap();
        assert_eq!(result.total_clicks, n);
        assert_eq!(get_campaign_stats(&state, "spring").unwrap().total_clicks, n);
    }
    let dump = get_all_stats(&state);
    assert_eq!(stats_of(&dump, "spring").total_clicks, 25);
    assert_eq!(stats_of(&dump, "spring").click_timestamps.len(), 25);
}

#[test]
fn counters_of_interleaved_campaigns_are_independent() {
    let mut state = AppState::new();
    let order = ["a", "b", "a", "c", "b", "a"];
    for (i, campaign) in order.iter().enumerate() {
        record_click(&mut state, click(campaign, "u", at(T0 + i as i64))).unwrap();
    }
    assert_eq!(get_campaign_stats(&state, "a").unwrap().total_clicks, 3);
    assert_eq!(get_campaign_stats(&state, "b").unwrap().total_clicks, 2);
    assert_eq!(get_campaign_stats(&state, "c").unwrap().total_clicks, 1);
}

#[test]
fn unique_users_equal_clicks_when_every_user_is_distinct() {
    let mut state = AppState::new();
    for n in 1..=6usize {
        let user = format!("user{}", n);
        let result = record_click(&mut state, click("distinct", &user, at(T0))).unwrap();
        assert_eq!(result.unique_users, n);
        assert_eq!(result.total_clicks, n as u64);
    }
}

#[test]
fn unique_users_stay_below_clicks_once_a_user_repeats() {
    let mut state = AppState::new();
    let users = ["u1", "u2", "u1", "u3", "u2", "u1"];
    let distinct_so_far = [1usize, 2, 2, 3, 3, 3];
    for (i, user) in users.iter().enumerate() {
        let result = record_click(&mut state, click("repeat", user, at(T0 + i as i64))).unwrap();
        assert_eq!(result.total_clicks, i as u64 + 1);
        assert_eq!(result.unique_users, distinct_so_far[i]);
        assert!(result.unique_users as u64 <= result.total_clicks);
        assert_eq!(result.unique_users as u64 == result.total_clicks, i < 2);
    }
    let dump = get_all_stats(&state);
    assert_eq!(stats_of(&dump, "repeat").unique_users, vec!["u1", "u2", "u3"]);
}

#[test]
fn campaign_is_created_by_its_first_click() {
    let mut state = AppState::new();
    assert_eq!(get_campaign_stats(&state, "fresh"), Err(ClickError::CampaignNotFound));
    assert!(get_all_stats(&state).is_empty());

    let recorded = record_click(&mut state, click("fresh", "u1", at(T0))).unwrap();
    let read = get_campaign_stats(&state, "fresh").unwrap();
    assert_eq!(read, recorded);
    assert_eq!(read.campaign_id, "fresh");
    assert_eq!(read.total_clicks, 1);
    assert_eq!(read.unique_users, 1);
    assert_eq!(read.clicks_per_second, ClickRate { clicks: 0, seconds: 1 });
    assert_eq!(per_second(read.clicks_per_second), 0.0);
    assert_eq!(get_campaign_stats(&state, "other"), Err(ClickError::CampaignNotFound));
}

#[test]
fn rate_counts_clicks_over_the_seconds_between_first_and_last() {
    let t0 = DateTime::parse_from_rfc3339("2024-01-01T00:00:00Z").unwrap().with_timezone(&Utc);
    assert_eq!(t0.timestamp(), T0);
    let t1 = t0 + chrono::TimeDelta::try_seconds(10).unwrap();
    let first = Timestamp::new(t0.timestamp(), t0.timestamp_subsec_nanos()).unwrap();
    let second = Timestamp::new(t1.timestamp(), t1.timestamp_subsec_nanos()).unwrap();

    let mut state = AppState::new();
    record_click(&mut state, click("camp1", "u1", first)).unwrap();
    let result = record_click(&mut state, click("camp1", "u2", second)).unwrap();
    assert_eq!(result.campaign_id, "camp1");
    assert_eq!(result.total_clicks, 2);
    assert_eq!(result.unique_users, 2);
    assert_eq!(result.clicks_per_second, ClickRate { clicks: 2, seconds: 10 });
    assert_eq!(per_second(result.clicks_per_second), 0.2);
    assert_eq!(get_campaign_stats(&state, "camp1").unwrap(), result);
}

#[test]
fn rate_ignores_the_instants_between_first_and_last() {
    let mut state = AppState::new();
    record_click(&mut state, click("mid", "u1", at(T0))).unwrap();
    record_click(&mut state, click("mid", "u2", at(T0 + 1_000))).unwrap();
    record_click(&mut state, click("mid", "u3", at(T0 - 1_000))).unwrap();
    let result = record_click(&mut state, click("mid", "u4", at(T0 + 8))).unwrap();
    assert_eq!(result.clicks_per_second, ClickRate { clicks: 4, seconds: 8 });
    assert_eq!(per_second(result.clicks_per_second), 0.5);
}

#[test]
fn identical_timestamps_floor_the_span_at_one_second() {
    let mut state = AppState::new();
    record_click(&mut state, click("same", "u1", at(T0))).unwrap();
    let result = record_click(&mut state, click("same", "u2", at(T0))).unwrap();
    assert_eq!(result.total_clicks, 2);
    assert_eq!(result.clicks_per_second, ClickRate { clicks: 2, seconds: 1 });
    assert_eq!(per_second(result.clicks_per_second), 2.0);
}

#[test]
fn span_under_one_second_floors_at_one_second() {
    let mut state = AppState::new();
    let first = Timestamp::new(T0, 100_000_000).unwrap();
    let last = Timestamp::new(T0, 900_000_000).unwrap();
    record_click(&mut state, click("fast", "u1", first)).unwrap();
    record_click(&mut state, click("fast", "u2", last)).unwrap();
    let result = record_click(&mut state, click("fast", "u3", last)).unwrap();
    assert_eq!(result.clicks_per_second, ClickRate { clicks: 3, seconds: 1 });
    assert_eq!(per_second(result.clicks_per_second), 3.0);
}

#[test]
fn repeated_reads_return_identical_results() {
    let mut state = AppState::new();
    record_click(&mut state, click("steady", "u1", at(T0))).unwrap();
    record_click(&mut state, click("steady", "u2", at(T0 + 4))).unwrap();
    let first: AggregationResult = get_campaign_stats(&state, "steady").unwrap();
    let second = get_campaign_stats(&state, "steady").unwrap();
    let third = get_campaign_stats(&state, "steady").unwrap();
    assert_eq!(first, second);
    assert_eq!(second, third);
    assert_eq!(first.clicks_per_second, ClickRate { clicks: 2, seconds: 4 });
    assert_eq!(get_all_stats(&state), get_all_stats(&state));
    assert_eq!(get_campaign_stats(&state, "absent"), get_campaign_stats(&state, "absent"));
}

#[test]
fn full_dump_holds_every_campaign_with_its_raw_counts() {
    let mut state = AppState::new();
    record_click(&mut state, click("a", "u1", at(T0))).unwrap();
    record_click(&mut state, click("b", "u1", at(T0 + 1))).unwrap();
    record_click(&mut state, click("a", "u2", at(T0 + 2))).unwrap();
    record_click(&mut state, click("a", "u1", at(T0 + 3))).unwrap();

    let dump = get_all_stats(&state);
    let mut keys: Vec<&str> = dump.iter().map(|(id, _)| id.as_str()).collect();
    keys.sort();
    assert_eq!(keys, vec!["a", "b"]);

    let a = stats_of(&dump, "a");
    assert_eq!(a.total_clicks, 3);
    assert_eq!(a.unique_users, vec!["u1", "u2"]);
    assert_eq!(a.click_timestamps, vec![at(T0), at(T0 + 2), at(T0 + 3)]);
    let b = stats_of(&dump, "b");
    assert_eq!(b.total_clicks, 1);
    assert_eq!(b.unique_users, vec!["u1"]);
    assert_eq!(b.click_timestamps, vec![at(T0 + 1)]);
}

#[test]
fn full_dump_is_a_copy() {
    let mut state = AppState::new();
    record_click(&mut state, click("a", "u1", at(T0))).unwrap();
    let mut dump = get_all_stats(&state);
    dump[0].1.total_clicks = 99;
    dump[0].1.unique_users.push("intruder".to_string());
    dump.clear();
    let again = get_all_stats(&state);
    assert_eq!(again.len(), 1);
    assert_eq!(stats_of(&again, "a").total_clicks, 1);
    assert_eq!(stats_of(&again, "a").unique_users, vec!["u1"]);
}

#[test]
fn out_of_order_arrival_keeps_arrival_order() {
    let mut state = AppState::new();
    record_click(&mut state, click("late", "u1", at(T0 + 10))).unwrap();
    let result = record_click(&mut state, click("late", "u2", at(T0))).unwrap();
    assert_eq!(result.total_clicks, 2);
    assert_eq!(result.clicks_per_second, ClickRate { clicks: 2, seconds: 1 });
    assert_eq!(per_second(result.clicks_per_second), 2.0);

    let dump = get_all_stats(&state);
    assert_eq!(stats_of(&dump, "late").click_timestamps, vec![at(T0 + 10), at(T0)]);

    let third = record_click(&mut state, click("late", "u3", at(T0 + 30))).unwrap();
    assert_eq!(third.clicks_per_second, ClickRate { clicks: 3, seconds: 20 });
}

#[test]
fn click_without_campaign_is_turned_down_without_a_trace() {
    let mut state = AppState::new();
    record_click(&mut state, click("kept", "u1", at(T0))).unwrap();
    let before = get_all_stats(&state);
    assert_eq!(
        record_click(&mut state, click("", "u2", at(T0 + 1))),
        Err(ClickError::EmptyCampaignId)
    );
    assert_eq!(get_all_stats(&state), before);
    assert_eq!(get_campaign_stats(&state, ""), Err(ClickError::CampaignNotFound));
}

#[test]
fn other_fields_are_taken_as_they_come() {
    let mut state = AppState::new();
    let odd = ClickEvent {
        campaign_id: " ".to_string(),
        user_id: String::new(),
        timestamp: at(T0),
        ip_address: "not an address".to_string(),
        user_agent: String::new(),
    };
    let result = record_click(&mut state, odd).unwrap();
    assert_eq!(result.campaign_id, " ");
    assert_eq!(result.total_clicks, 1);
    assert_eq!(result.unique_users, 1);
    let dump = get_all_stats(&state);
    assert_eq!(stats_of(&dump, " ").unique_users, vec![""]);
}

#[test]
fn campaign_identifiers_are_compared_exactly() {
    let mut state = AppState::new();
    record_click(&mut state, click("Camp", "u1", at(T0))).unwrap();
    record_click(&mut state, click("camp", "u1", at(T0))).unwrap();
    record_click(&mut state, click("camp ", "u1", at(T0))).unwrap();
    assert_eq!(get_all_stats(&state).len(), 3);
    assert_eq!(get_campaign_stats(&state, "camp").unwrap().total_clicks, 1);
    assert_eq!(get_campaign_stats(&state, "CAMP"), Err(ClickError::CampaignNotFound));
}

#[test]
fn default_stats_are_empty_and_clone_keeps_everything() {
    let empty = CampaignStats::default();
    assert_eq!(empty.total_clicks, 0);
    assert!(empty.unique_users.is_empty());
    assert!(empty.click_timestamps.is_empty());

    let stats = CampaignStats {
        total_clicks: 3,
        unique_users: vec!["u1".to_string(), "u2".to_string()],
        click_timestamps: vec![at(T0), at(T0 + 5), at(T0 + 1)],
    };
    let copy = stats.clone();
    assert_eq!(copy, stats);
    assert_eq!(copy.unique_users, vec!["u1", "u2"]);
    assert_eq!(copy.click_timestamps, vec![at(T0), at(T0 + 5), at(T0 + 1)]);
}
