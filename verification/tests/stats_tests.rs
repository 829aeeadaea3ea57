use bcnotif::average::Average;
use bcnotif::config::{Config, Weekday};
use bcnotif::feed::{Feed, Location};
use bcnotif::stats::ListenerStats;
use bcnotif::store::HistoricalStore;
use bcnotif::RATIO_SCALE;

fn test_feed(listeners: u32) -> Feed {
    Feed {
        id: 1,
        name: String::from("Test Feed"),
        listeners,
        location: Location::UsCalifornia,
        county: String::from("Test County"),
        alert: None,
    }
}

#[test]
fn ring_full_window_mean() {
    let mut avg = Average::new();
    for v in [10, 20, 30, 40, 50] {
        avg.add_sample(v);
    }
    assert_eq!(avg.current, 30 * RATIO_SCALE);
    avg.add_sample(60);
    // The oldest sample (10) is evicted: (20+30+40+50+60)/5 == 40.
    assert_eq!(avg.current, 40 * RATIO_SCALE);
    assert_eq!(avg.last, 30 * RATIO_SCALE);
}

#[test]
fn ring_partial_fill_mean() {
    let mut avg = Average::new();
    avg.add_sample(10);
    avg.add_sample(20);
    // Mean over the two populated slots, not over all five.
    assert_eq!(avg.current, 15 * RATIO_SCALE);
}

#[test]
fn ring_seed_occupies_no_slot() {
    let mut avg = Average::with_sample(80);
    assert_eq!(avg.current, 80 * RATIO_SCALE);
    avg.add_sample(10);
    // The seed only served as the starting mean; the first real sample
    // replaces it entirely.
    assert_eq!(avg.current, 10 * RATIO_SCALE);
    assert_eq!(avg.last, 80 * RATIO_SCALE);
}

fn stats_with_current(listeners_avg: u32) -> ListenerStats {
    let store = HistoricalStore::new();
    let mut stats = ListenerStats::init_from_db(&store, 0, 1, listeners_avg, 0);
    stats.average = Average::with_sample(listeners_avg);
    stats
}

#[test]
fn spike_boundary_is_inclusive() {
    let config = Config::default();
    // current == 60, listeners == 100, jump_required == 0.4:
    // 100 - 60 >= 100 * 0.4 holds with equality, so the cycle spikes.
    let stats = stats_with_current(60);
    assert!(stats.is_spiking(&test_feed(100), &config, Weekday::Mon));
    // One listener fewer than the boundary fails it.
    let stats = stats_with_current(61);
    assert!(!stats.is_spiking(&test_feed(100), &config, Weekday::Mon));
    // current == listeners: no jump at all.
    let stats = stats_with_current(100);
    assert!(!stats.is_spiking(&test_feed(100), &config, Weekday::Mon));
}

#[test]
fn low_listener_dampening() {
    let config = Config::default();
    // listeners == 10 < 50 raises the threshold to 0.4 + 40*0.005 == 0.6:
    // a 100% raw jump (5 -> 10) stays below 10*0.6 == 6.
    let stats = stats_with_current(5);
    assert!(!stats.is_spiking(&test_feed(10), &config, Weekday::Mon));
    // From a baseline of 4 the jump of 6 meets the bar exactly.
    let stats = stats_with_current(4);
    assert!(stats.is_spiking(&test_feed(10), &config, Weekday::Mon));
}

#[test]
fn zeroed_average_never_spikes() {
    let config = Config::default();
    let stats = stats_with_current(0);
    assert!(!stats.is_spiking(&test_feed(1000), &config, Weekday::Mon));
}

#[test]
fn freeze_then_release_round_trip() {
    let config = Config::default();
    let store = HistoricalStore::new();
    let mut stats = ListenerStats::init_from_db(&store, 0, 1, 100, 0);
    // Five quiet cycles at 100 listeners fill the window.
    for _ in 0..5 {
        stats.update(0, &test_feed(100), &config, Weekday::Mon, 0);
        assert!(stats.unskewed_average.is_none());
    }
    assert_eq!(stats.average.current, 100 * RATIO_SCALE);
    // A huge spike freezes the baseline at the pre-spike average of 100.
    stats.update(0, &test_feed(500), &config, Weekday::Mon, 0);
    assert!(stats.has_spiked);
    assert_eq!(stats.unskewed_average, Some(100 * RATIO_SCALE));
    // While the 500-sample sits in the window the raw average stays at 180
    // and the frozen baseline only drifts; it is not released.
    for _ in 0..4 {
        stats.update(0, &test_feed(100), &config, Weekday::Mon, 0);
        assert!(stats.unskewed_average.is_some());
    }
    // The cycle that evicts the spike sample pulls the raw average back to
    // 100, within 15% of the frozen value: released on exactly this cycle.
    stats.update(0, &test_feed(100), &config, Weekday::Mon, 0);
    assert_eq!(stats.average.current, 100 * RATIO_SCALE);
    assert!(stats.unskewed_average.is_none());
}

#[test]
fn large_jump_freezes_immediately() {
    let config = Config::default();
    let store = HistoricalStore::new();
    let mut stats = ListenerStats::init_from_db(&store, 0, 1, 50, 0);
    for _ in 0..5 {
        stats.update(0, &test_feed(50), &config, Weekday::Mon, 0);
    }
    assert_eq!(stats.average.current, 50 * RATIO_SCALE);
    // 250 > 50 * 4.0: the baseline freezes at the pre-spike average of 50 on
    // the very first spiking cycle, though only one spike has been seen.
    stats.update(0, &test_feed(250), &config, Weekday::Mon, 0);
    assert!(stats.has_spiked);
    assert_eq!(stats.spike_count, 1);
    assert_eq!(stats.unskewed_average, Some(50 * RATIO_SCALE));
}

#[test]
fn baseline_drifts_toward_raw_average() {
    let config = Config::default();
    let store = HistoricalStore::new();
    let mut stats = ListenerStats::init_from_db(&store, 0, 1, 100, 0);
    for _ in 0..5 {
        stats.update(0, &test_feed(100), &config, Weekday::Mon, 0);
    }
    stats.update(0, &test_feed(500), &config, Weekday::Mon, 0);
    assert_eq!(stats.unskewed_average, Some(100 * RATIO_SCALE));
    // Raw average is 180 after the spike; one quiet cycle drifts the frozen
    // value by 0.0075 * (1800000 - 1000000) == 6000 scaled units.
    stats.update(0, &test_feed(100), &config, Weekday::Mon, 0);
    assert_eq!(stats.unskewed_average, Some(100 * RATIO_SCALE + 6000));
}

#[test]
fn effective_baseline_prefers_frozen_value() {
    let mut stats = stats_with_current(70);
    assert_eq!(stats.current_listener_average(), 70 * RATIO_SCALE);
    stats.unskewed_average = Some(42 * RATIO_SCALE);
    assert_eq!(stats.current_listener_average(), 42 * RATIO_SCALE);
}

#[test]
fn display_rules() {
    let mut config = Config::default();
    let mut stats = stats_with_current(10);
    // Nothing spiked, no alert: nothing to show.
    assert!(!stats.should_display_feed(&test_feed(10), &config));
    // An alert alone is enough while alerts are shown.
    let mut alert_feed = test_feed(10);
    alert_feed.alert = Some(String::from("alert"));
    assert!(stats.should_display_feed(&alert_feed, &config));
    config.misc.show_alert_feeds = false;
    assert!(!stats.should_display_feed(&alert_feed, &config));
    // A spike is shown until it has been shown too many times.
    stats.has_spiked = true;
    stats.spike_count = 3;
    assert!(stats.should_display_feed(&test_feed(10), &config));
    config.misc.show_max_times = Some(2);
    assert!(!stats.should_display_feed(&test_feed(10), &config));
}

#[test]
fn update_writes_hour_bucket() {
    let config = Config::default();
    let mut store = HistoricalStore::new();
    let mut stats = ListenerStats::init_from_db(&store, 13, 7, 90, 1000);
    stats.update(13, &test_feed(90), &config, Weekday::Tue, 2000);
    stats.save_to_db(&mut store);
    let row = store.get(7).expect("row saved");
    assert_eq!(row.utc_12, Some(90));
    assert_eq!(row.utc_0, None);
    assert_eq!(row.last_seen, 2000);
}

#[test]
fn seeding_prefers_stored_bucket() {
    let mut store = HistoricalStore::new();
    let mut row = bcnotif::store::ListenerAvg::new(7, 0);
    row.set_hour(13, 250, 50);
    store.save(row);
    // The bucket for hour 13 seeds the average instead of the live count.
    let stats = ListenerStats::init_from_db(&store, 13, 7, 90, 1000);
    assert_eq!(stats.average.current, 250 * RATIO_SCALE);
    // A different hour has no bucket: fall back to the live count.
    let stats = ListenerStats::init_from_db(&store, 2, 7, 90, 1000);
    assert_eq!(stats.average.current, 90 * RATIO_SCALE);
}

#[test]
fn consecutive_spikes_freeze_without_large_jump() {
    // Two consecutive spikes exceed spikes_required == 1 and freeze the
    // baseline even though neither jump clears the 4.0x bar.
    let config = Config::default();
    let store = HistoricalStore::new();
    let mut stats = ListenerStats::init_from_db(&store, 0, 1, 100, 0);
    for _ in 0..5 {
        stats.update(0, &test_feed(100), &config, Weekday::Mon, 0);
    }
    stats.update(0, &test_feed(300), &config, Weekday::Mon, 0);
    assert!(stats.has_spiked);
    assert_eq!(stats.spike_count, 1);
    // 300 < 100 * 4.0: no immediate freeze on the first spiking cycle.
    assert!(stats.unskewed_average.is_none());
    stats.update(0, &test_feed(300), &config, Weekday::Mon, 0);
    assert!(stats.has_spiked);
    assert_eq!(stats.spike_count, 2);
    // The second consecutive spike freezes at the pre-spike average.
    assert_eq!(stats.unskewed_average, Some(stats.average.last));
}

#[test]
fn configured_spikes_required_changes_freeze_timing() {
    // With spikes_required == 0 the very first confirmed spike freezes the
    // baseline, without needing a large jump.
    let mut config = Config::default();
    config.unskewed.spikes_required = 0;
    let store = HistoricalStore::new();
    let mut stats = ListenerStats::init_from_db(&store, 0, 1, 100, 0);
    for _ in 0..5 {
        stats.update(0, &test_feed(100), &config, Weekday::Mon, 0);
    }
    // 300 < 100 * 4.0, so only the spike count can trigger the freeze.
    stats.update(0, &test_feed(300), &config, Weekday::Mon, 0);
    assert!(stats.has_spiked);
    assert_eq!(stats.unskewed_average, Some(100 * RATIO_SCALE));
}

#[test]
fn configured_reset_pcnt_changes_release_timing() {
    // A generous 100% release margin clears the freeze as soon as the raw
    // average is within double the frozen value.
    let mut config = Config::default();
    config.unskewed.reset_pcnt = bcnotif::config::Percentage::new(10000);
    let store = HistoricalStore::new();
    let mut stats = ListenerStats::init_from_db(&store, 0, 1, 100, 0);
    for _ in 0..5 {
        stats.update(0, &test_feed(100), &config, Weekday::Mon, 0);
    }
    stats.update(0, &test_feed(500), &config, Weekday::Mon, 0);
    assert_eq!(stats.unskewed_average, Some(100 * RATIO_SCALE));
    // Raw average 180 is within 100% of the frozen 100: released at once.
    stats.update(0, &test_feed(100), &config, Weekday::Mon, 0);
    assert!(stats.unskewed_average.is_none());
}

#[test]
fn lerp_moves_between_bounds() {
    assert_eq!(bcnotif::stats::lerp(100, 200, 0), 100);
    assert_eq!(bcnotif::stats::lerp(100, 200, 10000), 200);
    assert_eq!(bcnotif::stats::lerp(100, 200, 5000), 150);
}
