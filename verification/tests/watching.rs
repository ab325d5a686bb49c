use kucoin_trader::clock::MinuteStamp;
use kucoin_trader::kucoin_client::KucoinError;
use kucoin_trader::watcher::{Listing, OngoingOrder, Watcher};

fn listing(token: &str, date: &str) -> Listing {
    Listing {
        listing_date: date.to_string(),
        token: token.to_string(),
    }
}

fn stamp(year: i32, month: u8, day: u8, hour: u8, minute: u8) -> MinuteStamp {
    MinuteStamp {
        year,
        month,
        day,
        hour,
        minute,
    }
}

#[test]
fn listing_matches_once_within_its_minute() {
    let w = Watcher::new(true, Some(vec![listing("ABC", "2024-01-01 12:00")]));
    let now = stamp(2024, 1, 1, 12, 0);
    let mut ongoing: Vec<String> = Vec::new();
    let first = w.check_listing_and_execute_order(now, &mut ongoing);
    assert_eq!(first, vec!["ABC".to_string()]);
    assert_eq!(ongoing, vec!["ABC".to_string()]);
    // Any further check within the same minute takes nothing more.
    let second = w.check_listing_and_execute_order(now, &mut ongoing);
    assert!(second.is_empty());
    let third = w.check_listing_and_execute_order(now, &mut ongoing);
    assert!(third.is_empty());
    assert_eq!(ongoing, vec!["ABC".to_string()]);
}

#[test]
fn next_minute_does_not_match() {
    let w = Watcher::new(true, Some(vec![listing("ABC", "2024-01-01 12:00")]));
    let mut ongoing: Vec<String> = Vec::new();
    let hit = w.check_listing_and_execute_order(stamp(2024, 1, 1, 12, 1), &mut ongoing);
    assert!(hit.is_empty());
    assert!(ongoing.is_empty());
}

#[test]
fn other_fields_must_match_too() {
    let w = Watcher::new(true, Some(vec![listing("ABC", "2024-01-01 12:00")]));
    let mut ongoing: Vec<String> = Vec::new();
    for now in [
        stamp(2025, 1, 1, 12, 0),
        stamp(2024, 2, 1, 12, 0),
        stamp(2024, 1, 2, 12, 0),
        stamp(2024, 1, 1, 13, 0),
    ] {
        let hit = w.check_listing_and_execute_order(now, &mut ongoing);
        assert!(hit.is_empty());
    }
}

#[test]
fn token_already_in_flight_is_not_bought_again() {
    let w = Watcher::new(true, Some(vec![listing("ABC", "2024-01-01 12:00")]));
    let mut ongoing = vec!["ABC".to_string()];
    let hit = w.check_listing_and_execute_order(stamp(2024, 1, 1, 12, 0), &mut ongoing);
    assert!(hit.is_empty());
    assert_eq!(ongoing, vec!["ABC".to_string()]);
}

#[test]
fn duplicate_listing_is_bought_once() {
    let w = Watcher::new(
        true,
        Some(vec![
            listing("ABC", "2024-01-01 12:00"),
            listing("ABC", "2024-01-01 12:00"),
            listing("DEF", "2024-01-01 12:00"),
        ]),
    );
    let mut ongoing: Vec<String> = Vec::new();
    let hit = w.check_listing_and_execute_order(stamp(2024, 1, 1, 12, 0), &mut ongoing);
    assert_eq!(hit, vec!["ABC".to_string(), "DEF".to_string()]);
    assert_eq!(ongoing, vec!["ABC".to_string(), "DEF".to_string()]);
}

#[test]
fn unparsable_listing_date_never_matches() {
    let w = Watcher::new(true, Some(vec![listing("ABC", "not a date")]));
    let mut ongoing: Vec<String> = Vec::new();
    let hit = w.check_listing_and_execute_order(stamp(2024, 1, 1, 12, 0), &mut ongoing);
    assert!(hit.is_empty());
}

#[test]
fn missing_store_starts_empty() {
    let w = Watcher::new(false, None);
    assert!(w.listing_json.is_empty());
    assert!(!w.test);
}

#[test]
fn reload_replaces_the_working_set_wholesale() {
    let mut w = Watcher::new(
        true,
        Some(vec![
            listing("A", "2024-01-01 12:00"),
            listing("B", "2024-01-02 12:00"),
        ]),
    );
    let r = w.reload_json(Some(vec![
        listing("A", "2024-01-01 12:00"),
        listing("C", "2024-03-01 09:30"),
    ]));
    assert!(r.is_ok());
    let tokens: Vec<&str> = w.listing_json.iter().map(|l| l.token.as_str()).collect();
    assert_eq!(tokens, vec!["A", "C"]);
}

#[test]
fn failed_reload_keeps_the_previous_working_set() {
    let mut w = Watcher::new(true, Some(vec![listing("A", "2024-01-01 12:00")]));
    let r = w.reload_json(None);
    assert_eq!(r.unwrap_err(), KucoinError::Store);
    assert_eq!(w.listing_json.len(), 1);
    assert_eq!(w.listing_json[0].token.as_str(), "A");
}

#[test]
fn ongoing_order_keeps_its_token() {
    let o = OngoingOrder::new("ABC".to_string());
    assert_eq!(o.token().as_str(), "ABC");
}
