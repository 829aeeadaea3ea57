use bcnotif::config::{
    Config, FeedIdent, FeedOptions, FeedSelector, Percentage, SortOrder, SortType, Weekday,
};
use bcnotif::feed::{Feed, Location};

fn feed_in(county: &str, id: u32, location: Location) -> Feed {
    Feed {
        id,
        name: String::from("Some Feed"),
        listeners: 50,
        location,
        county: String::from(county),
        alert: None,
    }
}

#[test]
fn selector_matching() {
    let feed = feed_in("Kings", 7, Location::UsNewYork);
    assert!(FeedSelector::Global.matches_feed(&feed));
    assert!(FeedSelector::ID(7).matches_feed(&feed));
    assert!(!FeedSelector::ID(8).matches_feed(&feed));
    // County names compare ignoring ASCII case.
    assert!(FeedSelector::County(String::from("kings")).matches_feed(&feed));
    assert!(FeedSelector::County(String::from("KINGS")).matches_feed(&feed));
    assert!(!FeedSelector::County(String::from("queens")).matches_feed(&feed));
    // UsNewYork carries directory id 36.
    assert!(FeedSelector::State(36).matches_feed(&feed));
    assert!(!FeedSelector::State(6).matches_feed(&feed));
}

#[test]
fn ident_matching_is_exact() {
    let feed = feed_in("Kings", 7, Location::UsNewYork);
    assert!(FeedIdent::Name(String::from("Some Feed")).matches_feed(&feed));
    assert!(!FeedIdent::Name(String::from("some feed")).matches_feed(&feed));
    assert!(FeedIdent::ID(7).matches_feed(&feed));
    assert!(FeedIdent::County(String::from("Kings")).matches_feed(&feed));
    // Identifiers, unlike selectors, compare counties exactly.
    assert!(!FeedIdent::County(String::from("kings")).matches_feed(&feed));
    assert!(FeedIdent::State(36).matches_feed(&feed));
}

#[test]
fn selector_parsing() {
    assert!(matches!(FeedSelector::from_str("global"), Some(FeedSelector::Global)));
    assert!(matches!(FeedSelector::from_str("id(42)"), Some(FeedSelector::ID(42))));
    assert!(matches!(FeedSelector::from_str("ID(42)"), Some(FeedSelector::ID(42))));
    assert!(matches!(FeedSelector::from_str("state(6)"), Some(FeedSelector::State(6))));
    match FeedSelector::from_str("county(Los Angeles)") {
        Some(FeedSelector::County(c)) => assert_eq!(c, "Los Angeles"),
        other => panic!("unexpected parse: {:?}", other),
    }
    assert!(FeedSelector::from_str("").is_none());
    assert!(FeedSelector::from_str("id(42").is_none());
    assert!(FeedSelector::from_str("id42)").is_none());
    assert!(FeedSelector::from_str("id(notanumber)").is_none());
    assert!(FeedSelector::from_str("town(x)").is_none());
    assert!(FeedSelector::from_str("id(99999999999999)").is_none());
}

#[test]
fn options_lookup_prefers_weekday_table() {
    let mut config = Config::default();
    let special = FeedOptions {
        jump_required: Percentage::new(9000),
        jump_required_unskewed: Percentage::new(50000),
        ..FeedOptions::default()
    };
    config.feed.push((FeedSelector::ID(7), special));
    let feed = feed_in("Kings", 7, Location::UsNewYork);
    // The global table serves every weekday without an own table.
    assert_eq!(config.options_for_feed(&feed, Weekday::Mon).jump_required.as_mult(), 9000);
    // A weekday table, even an empty one, replaces the global table whole.
    config.weekday.push((Weekday::Mon, Vec::new()));
    assert_eq!(config.options_for_feed(&feed, Weekday::Mon).jump_required.as_mult(), 4000);
    assert_eq!(config.options_for_feed(&feed, Weekday::Tue).jump_required.as_mult(), 9000);
}

#[test]
fn options_lookup_first_match_wins() {
    let mut config = Config::default();
    let first = FeedOptions { jump_required: Percentage::new(1000), ..FeedOptions::default() };
    let second = FeedOptions { jump_required: Percentage::new(2000), ..FeedOptions::default() };
    config.feed.push((FeedSelector::County(String::from("kings")), first));
    config.feed.push((FeedSelector::Global, second));
    let feed = feed_in("Kings", 7, Location::UsNewYork);
    assert_eq!(config.options_for_feed(&feed, Weekday::Wed).jump_required.as_mult(), 1000);
    let other = feed_in("Queens", 8, Location::UsNewYork);
    assert_eq!(config.options_for_feed(&other, Weekday::Wed).jump_required.as_mult(), 2000);
}

#[test]
fn defaults() {
    let config = Config::default();
    assert_eq!(config.misc.update_time_mins, 6);
    assert_eq!(config.misc.minimum_listeners, 15);
    assert_eq!(config.misc.show_max, 10);
    assert_eq!(config.misc.show_max_times, None);
    assert!(config.misc.show_alert_feeds);
    assert!(matches!(config.sorting.value, SortType::Jump));
    assert!(matches!(config.sorting.order, SortOrder::Descending));
    let opts = FeedOptions::default();
    // 40% spike threshold, 4.0x immediate-freeze multiplier, 0.005 per low
    // listener, 0.02 off per 100 listeners of rise.
    assert_eq!(opts.jump_required.as_mult(), 4000);
    assert_eq!(opts.jump_required_unskewed.as_mult(), 40000);
    assert_eq!(opts.low_listener_increase.as_mult(), 50);
    assert_eq!(opts.high_listener_dec.as_mult(), 200);
    assert_eq!(opts.high_listener_dec_every, 100);
    // Release within 15%, drift by 0.0075, freeze past one confirmed spike.
    assert_eq!(config.unskewed.reset_pcnt.as_mult(), 1500);
    assert_eq!(config.unskewed.adjust_pcnt.as_mult(), 75);
    assert_eq!(config.unskewed.spikes_required, 1);
}

#[test]
fn percentage_is_fixed_point() {
    assert_eq!(Percentage::new(4000).as_mult(), 4000);
    assert_eq!(Percentage::new(0).as_mult(), 0);
}
