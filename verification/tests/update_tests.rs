use bcnotif::config::{Config, FeedSelector, SortOrder, SortType, Weekday};
use bcnotif::feed::{sort_dedup_feeds, Feed, Location, Source};
use bcnotif::store::{HistoricalStore, ListenerAvg, RETENTION_SECS};
use bcnotif::update::{filter_feeds, prune_schedule, run_update, FeedNotif, ListenerStatMap, PRUNE_INTERVAL_SECS};
use bcnotif::RATIO_SCALE;

fn feed(id: u32, listeners: u32, county: &str) -> Feed {
    Feed {
        id,
        name: format!("Feed {}", id),
        listeners,
        location: Location::UsTexas,
        county: String::from(county),
        alert: None,
    }
}

#[test]
fn bucket_aging() {
    let now: i64 = 1_700_000_000;
    let mut store = HistoricalStore::new();
    store.save(ListenerAvg::new(1, now - 31 * 24 * 60 * 60));
    store.save(ListenerAvg::new(2, now - 29 * 24 * 60 * 60));
    store.save(ListenerAvg::new(3, now - RETENTION_SECS));
    let removed = store.remove_old_from_db(now);
    // 31 days is past the 30-day retention; 29 days is not, and a row
    // exactly at the cutoff is kept.
    assert_eq!(removed, 1);
    assert!(store.get(1).is_none());
    assert!(store.get(2).is_some());
    assert!(store.get(3).is_some());
}

#[test]
fn store_upserts_one_row_per_feed() {
    let mut store = HistoricalStore::new();
    let mut row = ListenerAvg::new(5, 100);
    store.save(row);
    row.set_hour(0, 77, 200);
    store.save(row);
    assert_eq!(store.rows.len(), 1);
    let got = store.get(5).expect("row present");
    assert_eq!(got.utc_0, Some(77));
    assert_eq!(got.last_seen, 200);
    // Missing feeds load as fresh rows.
    let fresh = store.load_or_new(9, 300);
    assert_eq!(fresh.id, 9);
    assert_eq!(fresh.last_seen, 300);
    assert_eq!(fresh.utc_8, None);
}

#[test]
fn bucket_selection_by_hour() {
    let mut row = ListenerAvg::new(1, 0);
    row.set_hour(3, 10, 0);
    row.set_hour(7, 20, 0);
    row.set_hour(11, 30, 0);
    row.set_hour(15, 40, 0);
    row.set_hour(19, 50, 0);
    row.set_hour(23, 60, 0);
    assert_eq!(row.for_hour(0), Some(10));
    assert_eq!(row.for_hour(4), Some(20));
    assert_eq!(row.for_hour(8), Some(30));
    assert_eq!(row.for_hour(12), Some(40));
    assert_eq!(row.for_hour(16), Some(50));
    assert_eq!(row.for_hour(20), Some(60));
    // Out-of-range hours wrap into the first window.
    assert_eq!(row.for_hour(24), Some(10));
}

#[test]
fn filter_feeds_applies_both_lists() {
    let mut config = Config::default();
    config.filters.whitelist.push(FeedSelector::County(String::from("alpha")));
    config.filters.whitelist.push(FeedSelector::County(String::from("beta")));
    config.filters.blacklist.push(FeedSelector::ID(2));
    let mut feeds = vec![
        feed(1, 30, "Alpha"),
        feed(2, 30, "Beta"),
        feed(3, 30, "Gamma"),
    ];
    filter_feeds(&config, &mut feeds);
    // Gamma fails the whitelist; Beta matches the deny entry and is
    // dropped; only Alpha passes both lists.
    let ids: Vec<u32> = feeds.iter().map(|f| f.id).collect();
    assert_eq!(ids, vec![1]);
}

#[test]
fn blacklist_removes_every_matching_feed() {
    let mut config = Config::default();
    config.filters.blacklist.push(FeedSelector::ID(1));
    config.filters.blacklist.push(FeedSelector::ID(2));
    let mut feeds = vec![feed(1, 30, "A"), feed(2, 30, "B"), feed(3, 30, "C")];
    filter_feeds(&config, &mut feeds);
    // A feed matching any deny entry is removed; only feed 3 survives.
    let ids: Vec<u32> = feeds.iter().map(|f| f.id).collect();
    assert_eq!(ids, vec![3]);
}

#[test]
fn run_update_tracks_and_persists() {
    let config = Config::default();
    let mut store = HistoricalStore::new();
    let mut stats: ListenerStatMap = ListenerStatMap::with_capacity(8);
    let feeds = vec![feed(1, 100, "A"), feed(2, 40, "B")];
    let shown = run_update(&mut store, &config, 5, Weekday::Fri, 1000, feeds, &mut stats);
    // First sighting of both feeds: seeded from the live count, no spike.
    assert!(shown.is_empty());
    assert_eq!(stats.len(), 2);
    assert_eq!(store.get(1).expect("row 1").utc_4, Some(100));
    assert_eq!(store.get(2).expect("row 2").utc_4, Some(40));

    // A five-fold jump on feed 1 spikes and is surfaced with its jump.
    let feeds = vec![feed(1, 500, "A"), feed(2, 40, "B")];
    let shown = run_update(&mut store, &config, 5, Weekday::Fri, 2000, feeds, &mut stats);
    assert_eq!(shown.len(), 1);
    assert_eq!(shown[0].feed.id, 1);
    assert_eq!(shown[0].jump, (400 * RATIO_SCALE) as i64);
    assert!(stats.get(&1).expect("stats 1").has_spiked);
    assert!(!stats.get(&2).expect("stats 2").has_spiked);
}

#[test]
fn run_update_caps_display_count() {
    let mut config = Config::default();
    config.misc.show_max = 1;
    config.misc.show_alert_feeds = true;
    let mut store = HistoricalStore::new();
    let mut stats: ListenerStatMap = ListenerStatMap::with_capacity(8);
    let mut feeds = Vec::new();
    for id in 1..=5u32 {
        let mut f = feed(id, 100, "A");
        f.alert = Some(String::from("alert"));
        feeds.push(f);
    }
    let shown = run_update(&mut store, &config, 0, Weekday::Mon, 0, feeds, &mut stats);
    // The display cap admits at most show_max entries, in observation order.
    assert_eq!(shown.len(), 1);
    assert_eq!(shown[0].feed.id, 1);
}

#[test]
fn run_update_surfaces_every_displayable_feed_in_order() {
    let mut config = Config::default();
    config.misc.show_max = 3;
    let mut store = HistoricalStore::new();
    let mut stats: ListenerStatMap = ListenerStatMap::with_capacity(8);
    let mut feeds = Vec::new();
    for id in 1..=5u32 {
        let mut f = feed(id, 100, "A");
        // Feed 2 carries no alert and does not spike: it is not surfaced
        // and does not consume the cap.
        if id != 2 {
            f.alert = Some(String::from("alert"));
        }
        feeds.push(f);
    }
    let shown = run_update(&mut store, &config, 0, Weekday::Mon, 0, feeds, &mut stats);
    let ids: Vec<u32> = shown.iter().map(|n| n.feed.id).collect();
    assert_eq!(ids, vec![1, 3, 4]);
}

#[test]
fn prune_scheduling() {
    let (due, next) = prune_schedule(1000, 1000);
    assert!(due);
    assert_eq!(next, 1000 + PRUNE_INTERVAL_SECS);
    let (due, next) = prune_schedule(1000, 2000);
    assert!(!due);
    assert_eq!(next, 2000);
}

#[test]
fn sort_all_orders_by_configured_key() {
    let mut config = Config::default();
    config.sorting.value = SortType::Jump;
    config.sorting.order = SortOrder::Descending;
    let mut notifs = vec![
        FeedNotif { feed: feed(1, 10, "A"), jump: 50000 },
        FeedNotif { feed: feed(2, 30, "B"), jump: 10000 },
        FeedNotif { feed: feed(3, 20, "C"), jump: 30000 },
    ];
    FeedNotif::sort_all(&mut notifs, &config);
    let jumps: Vec<i64> = notifs.iter().map(|n| n.jump).collect();
    assert_eq!(jumps, vec![50000, 30000, 10000]);

    config.sorting.value = SortType::Listeners;
    config.sorting.order = SortOrder::Ascending;
    FeedNotif::sort_all(&mut notifs, &config);
    let listeners: Vec<u32> = notifs.iter().map(|n| n.feed.listeners).collect();
    assert_eq!(listeners, vec![10, 20, 30]);
}

#[test]
fn sort_dedup_keeps_one_feed_per_id() {
    let feeds = vec![feed(9, 10, "A"), feed(3, 20, "B"), feed(9, 30, "C"), feed(1, 5, "D")];
    let merged = sort_dedup_feeds(feeds);
    let ids: Vec<u32> = merged.iter().map(|f| f.id).collect();
    assert_eq!(ids, vec![1, 3, 9]);
    // The first sighting of a repeated id wins.
    assert_eq!(merged[2].county, "A");
}

#[test]
fn source_urls() {
    assert_eq!(Source::Top50.url(), "https://www.broadcastify.com/listen/top");
    assert_eq!(
        Source::Location(Location::UsCalifornia).url(),
        "https://www.broadcastify.com/listen/stid/6"
    );
}

#[test]
fn location_table() {
    assert_eq!(Location::UsCalifornia.id(), 6);
    assert_eq!(Location::UsCalifornia.abbrev(), "US-CA");
    assert_eq!(Location::ClSantiago.id(), 723);
    assert_eq!(Location::ClSantiago.abbrev(), "CL-RM");
    assert!(matches!(Location::from_id(6), Some(Location::UsCalifornia)));
    assert!(matches!(Location::from_id(723), Some(Location::ClSantiago)));
    assert!(Location::from_id(3).is_none());
    assert!(Location::from_id(0).is_none());
}
