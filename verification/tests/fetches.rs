use icon_cache::fetch::{make_fetch_key, ActiveFetches};
use icon_cache::status::IconStatus;

#[test]
fn fetch_key_is_prefix_and_asset_id() {
    assert_eq!(make_fetch_key("ETH"), "query_icons_ETH");
    assert_eq!(make_fetch_key(""), "query_icons_");
    assert_eq!(make_fetch_key("eip155:1/erc20:0xA"), "query_icons_eip155:1/erc20:0xA");
}

#[test]
fn new_coordinator_has_nothing_in_flight() {
    let fetches = ActiveFetches::new();
    assert!(!fetches.is_active("ETH"));
}

#[test]
fn first_caller_starts_the_fetch() {
    let mut fetches = ActiveFetches::new();

    let ticket = fetches.trigger_fetch("ETH");

    assert_eq!(ticket.status, IconStatus::Accepted);
    assert_eq!(ticket.key, "query_icons_ETH");
    assert!(ticket.spawn);
    assert!(fetches.is_active("ETH"));
}

#[test]
fn later_callers_are_accepted_without_a_fetch() {
    let mut fetches = ActiveFetches::new();
    let first = fetches.trigger_fetch("ETH");
    assert!(first.spawn);

    let mut started: u32 = 0;
    for _ in 0..10 {
        let ticket = fetches.trigger_fetch("ETH");
        assert_eq!(ticket.status, IconStatus::Accepted);
        if ticket.spawn {
            started += 1;
        }
    }

    assert_eq!(started, 0);
}

#[test]
fn assets_do_not_hold_each_other_up() {
    let mut fetches = ActiveFetches::new();
    assert!(fetches.trigger_fetch("ETH").spawn);
    assert!(fetches.trigger_fetch("BTC").spawn);
    assert!(!fetches.trigger_fetch("ETH").spawn);
    assert!(!fetches.trigger_fetch("BTC").spawn);
}

#[test]
fn a_finished_fetch_can_be_started_again() {
    let mut fetches = ActiveFetches::new();
    let ticket = fetches.trigger_fetch("ETH");
    assert!(fetches.trigger_fetch("BTC").spawn);

    fetches.complete_fetch(&ticket.key);

    assert!(!fetches.is_active("ETH"));
    assert!(fetches.is_active("BTC"));
    assert!(fetches.trigger_fetch("ETH").spawn);
}

#[test]
fn completing_what_is_not_in_flight_changes_nothing() {
    let mut fetches = ActiveFetches::new();
    assert!(fetches.trigger_fetch("BTC").spawn);

    fetches.complete_fetch("query_icons_ETH");

    assert!(fetches.is_active("BTC"));
    assert!(!fetches.is_active("ETH"));
}
