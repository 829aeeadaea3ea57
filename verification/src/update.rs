//! The per-cycle orchestration: filtering scraped feeds, running the
//! statistics update per feed, and selecting which feeds to surface.

use vstd::prelude::*;
use std::collections::HashMap;
use crate::config::{Config, FeedSelector, SortOptions, SortOrder, SortType, Weekday};
use crate::feed::{spec_has_feed_id, Feed};
use crate::stats::{spec_seeded, spec_stepped, ListenerStats};
use crate::store::HistoricalStore;

verus! {

broadcast use vstd::std_specs::hash::group_hash_axioms;

/// The in-memory statistics, one entry per feed id ever seen this run.
pub type ListenerStatMap = HashMap<u32, ListenerStats>;

/// One feed selected for display, with the jump that triggered it (scaled).
#[derive(Debug)]
pub struct FeedNotif {
    pub feed: Feed,
    pub jump: i64,
}

impl FeedNotif {
    pub fn new(feed: Feed, stats: &ListenerStats) -> (r: Self)
        ensures
            r.feed == feed,
            r.jump == stats.jump,
    {
        FeedNotif { feed, jump: stats.jump }
    }
}

/// Ordering of two display entries under the configured sort.
pub open spec fn spec_notif_le(a: FeedNotif, b: FeedNotif, sorting: SortOptions) -> bool {
    let (x, y) = match sorting.order {
        SortOrder::Ascending => (a, b),
        SortOrder::Descending => (b, a),
    };
    match sorting.value {
        SortType::Listeners => x.feed.listeners <= y.feed.listeners,
        SortType::Jump => x.jump <= y.jump,
    }
}

fn notif_le(a: &FeedNotif, b: &FeedNotif, sorting: SortOptions) -> (r: bool)
    ensures
        r == spec_notif_le(*a, *b, sorting),
{
    let (x, y) = match sorting.order {
        SortOrder::Ascending => (a, b),
        SortOrder::Descending => (b, a),
    };
    match sorting.value {
        SortType::Listeners => x.feed.listeners <= y.feed.listeners,
        SortType::Jump => x.jump <= y.jump,
    }
}

impl FeedNotif {
    /// Sorts the display entries by the configured value and direction: the
    /// result is ordered and holds exactly the same entries.
    pub fn sort_all(notifs: &mut Vec<FeedNotif>, config: &Config)
        ensures
            final(notifs)@.len() == old(notifs)@.len(),
            final(notifs)@.to_multiset() == old(notifs)@.to_multiset(),
            forall|i: int, j: int|
                0 <= i < j < final(notifs)@.len() ==> spec_notif_le(
                    #[trigger] final(notifs)@[i],
                    #[trigger] final(notifs)@[j],
                    config.sorting,
                ),
    {
        broadcast use vstd::seq_lib::group_to_multiset_ensures;

        let sorting = config.sorting;
        let mut out: Vec<FeedNotif> = Vec::new();
        while notifs.len() > 0
            invariant
                out@.to_multiset().add(notifs@.to_multiset()) =~= old(notifs)@.to_multiset(),
                out@.len() + notifs@.len() == old(notifs)@.len(),
                forall|i: int, j: int|
                    0 <= i < j < out@.len() ==> spec_notif_le(
                        #[trigger] out@[i],
                        #[trigger] out@[j],
                        sorting,
                    ),
                forall|i: int, j: int|
                    0 <= i < out@.len() && 0 <= j < notifs@.len() ==> spec_notif_le(
                        #[trigger] out@[i],
                        #[trigger] notifs@[j],
                        sorting,
                    ),
            decreases notifs@.len(),
        {
            let mut m: usize = 0;
            let mut k: usize = 1;
            while k < notifs.len()
                invariant
                    m < k <= notifs@.len(),
                    notifs@.len() > 0,
                    forall|j: int|
                        0 <= j < k ==> spec_notif_le(notifs@[m as int], #[trigger] notifs@[j], sorting),
                decreases notifs@.len() - k,
            {
                if notif_le(&notifs[k], &notifs[m], sorting) {
                    m = k;
                }
                k = k + 1;
            }
            let ghost pre = notifs@;
            let ghost pre_out = out@;
            let x = notifs.remove(m);
            out.push(x);
            proof {
                broadcast use vstd::multiset::group_multiset_axioms;

                pre.to_multiset_ensures();
                pre_out.to_multiset_ensures();
                assert(pre.contains(x)) by {
                    assert(pre[m as int] == x);
                }
                assert(notifs@.to_multiset() =~= pre.to_multiset().remove(x));
                assert(out@.to_multiset() =~= pre_out.to_multiset().insert(x));
                assert(out@.to_multiset().add(notifs@.to_multiset()) =~= old(
                    notifs,
                )@.to_multiset());
                assert forall|i: int, j: int|
                    0 <= i < out@.len() && 0 <= j < notifs@.len() implies spec_notif_le(
                    #[trigger] out@[i],
                    #[trigger] notifs@[j],
                    sorting,
                ) by {
                    let jj = if j < m { j } else { j + 1 };
                    assert(notifs@[j] == pre[jj]);
                }
            }
        }
        *notifs = out;
    }
}

/// Whether any selector in the list matches the feed.
pub open spec fn spec_any_matches(sels: Seq<FeedSelector>, f: Feed) -> bool {
    exists|i: int| 0 <= i < sels.len() && (#[trigger] sels[i]).spec_matches(&f)
}

fn any_matches(sels: &Vec<FeedSelector>, f: &Feed) -> (r: bool)
    ensures
        r == spec_any_matches(sels@, *f),
{
    let mut i: usize = 0;
    while i < sels.len()
        invariant
            i <= sels@.len(),
            forall|j: int| 0 <= j < i ==> !(#[trigger] sels@[j]).spec_matches(f),
        decreases sels@.len() - i,
    {
        if sels[i].matches_feed(f) {
            return true;
        }
        i = i + 1;
    }
    false
}

/// The feeds that survive the allow-list: with a non-empty whitelist, only
/// feeds matching some entry stay.
pub open spec fn spec_whitelist_pass(config: &Config, feeds: Seq<Feed>) -> Seq<Feed> {
    if config.filters.whitelist@.len() == 0 {
        feeds
    } else {
        feeds.filter(|f: Feed| spec_any_matches(config.filters.whitelist@, f))
    }
}

/// The feeds that survive the deny-list: a feed matching any blacklist
/// entry is removed.
pub open spec fn spec_blacklist_pass(config: &Config, feeds: Seq<Feed>) -> Seq<Feed> {
    if config.filters.blacklist@.len() == 0 {
        feeds
    } else {
        feeds.filter(|f: Feed| !spec_any_matches(config.filters.blacklist@, f))
    }
}

/// Applies the allow-list, then the deny-list, to the scraped feeds.
pub fn filter_feeds(config: &Config, feeds: &mut Vec<Feed>)
    ensures
        final(feeds)@ == spec_blacklist_pass(config, spec_whitelist_pass(config, old(feeds)@)),
{
    proof {
        reveal(Seq::filter);
    }
    if !config.filters.whitelist.is_empty() {
        let ghost orig = feeds@;
        proof {
            assert(orig.len() == feeds.len());
        }
        let mut kept: Vec<Feed> = Vec::new();
        let mut i: usize = 0;
        while feeds.len() > 0
            invariant
                orig.len() <= usize::MAX,
                i + feeds@.len() == orig.len(),
                feeds@ == orig.skip(i as int),
                kept@ == spec_whitelist_pass(config, orig.take(i as int)),
                config.filters.whitelist@.len() > 0,
            decreases feeds@.len(),
        {
            proof {
                reveal(Seq::filter);
                let t = orig.take(i + 1);
                assert(t.drop_last() =~= orig.take(i as int));
                assert(t.last() == orig[i as int]);
                assert(feeds@[0] == orig[i as int]);
            }
            let f = feeds.remove(0);
            if any_matches(&config.filters.whitelist, &f) {
                kept.push(f);
            }
            i = i + 1;
            proof {
                assert(feeds@ =~= orig.skip(i as int));
            }
        }
        proof {
            assert(orig.take(orig.len() as int) =~= orig);
        }
        *feeds = kept;
    }
    proof {
        assert(feeds@ == spec_whitelist_pass(config, old(feeds)@));
    }
    if !config.filters.blacklist.is_empty() {
        let ghost orig = feeds@;
        proof {
            assert(orig.len() == feeds.len());
        }
        let mut kept: Vec<Feed> = Vec::new();
        let mut i: usize = 0;
        while feeds.len() > 0
            invariant
                orig.len() <= usize::MAX,
                i + feeds@.len() == orig.len(),
                feeds@ == orig.skip(i as int),
                kept@ == spec_blacklist_pass(config, orig.take(i as int)),
                config.filters.blacklist@.len() > 0,
            decreases feeds@.len(),
        {
            proof {
                reveal(Seq::filter);
                let t = orig.take(i + 1);
                assert(t.drop_last() =~= orig.take(i as int));
                assert(t.last() == orig[i as int]);
                assert(feeds@[0] == orig[i as int]);
            }
            let f = feeds.remove(0);
            if !any_matches(&config.filters.blacklist, &f) {
                kept.push(f);
            }
            i = i + 1;
            proof {
                assert(feeds@ =~= orig.skip(i as int));
            }
        }
        proof {
            assert(orig.take(orig.len() as int) =~= orig);
        }
        *feeds = kept;
    }
}

/// All statistics in the map are well formed and keyed by their own feed id.
pub open spec fn spec_stats_wf(m: Map<u32, ListenerStats>) -> bool {
    forall|id: u32|
        m.contains_key(id) ==> (#[trigger] m[id]).wf() && m[id].listener_avg.id == id
}

/// Seconds between prune sweeps of the historical store: 12 hours.
pub const PRUNE_INTERVAL_SECS: i64 = 12 * 60 * 60;

/// Whether a prune sweep of the historical store is due at `cur_time`, and
/// the deadline of the next sweep: unchanged while not due, one interval
/// past `cur_time` (saturating) once due.
pub fn prune_schedule(cur_time: i64, scheduled: i64) -> (r: (bool, i64))
    ensures
        r.0 == (cur_time >= scheduled),
        !r.0 ==> r.1 == scheduled,
        r.0 ==> r.1 == (if cur_time <= i64::MAX - PRUNE_INTERVAL_SECS {
            (cur_time + PRUNE_INTERVAL_SECS) as i64
        } else {
            i64::MAX
        }),
{
    if cur_time >= scheduled {
        let next = if cur_time <= i64::MAX - PRUNE_INTERVAL_SECS {
            cur_time + PRUNE_INTERVAL_SECS
        } else {
            i64::MAX
        };
        (true, next)
    } else {
        (false, scheduled)
    }
}

/// How one cycle transforms one feed's statistics entry: an entry already
/// present is stepped once by [`spec_stepped`]; a feed first sighted this
/// cycle gets an entry seeded from the historical store and stepped once.
pub open spec fn spec_cycle_entry(
    stats0: Map<u32, ListenerStats>,
    db0: Map<u32, crate::store::ListenerAvg>,
    post: ListenerStats,
    feed: Feed,
    config: &Config,
    hour: u8,
    weekday: Weekday,
    now: i64,
) -> bool {
    if stats0.contains_key(feed.id) {
        spec_stepped(stats0[feed.id], post, feed, config, hour, weekday, now)
    } else {
        exists|seed: ListenerStats|
            spec_seeded(seed, db0, hour, feed.id, feed.listeners, now) && #[trigger] spec_stepped(
                seed,
                post,
                feed,
                config,
                hour,
                weekday,
                now,
            )
    }
}

/// The feeds one cycle surfaces: the observed feeds whose updated
/// statistics say to display, in observation order, truncated once the cap
/// is reached.
pub open spec fn spec_display_list(
    feeds: Seq<Feed>,
    m: Map<u32, ListenerStats>,
    config: &Config,
    cap: int,
) -> Seq<FeedNotif>
    decreases feeds.len(),
{
    if feeds.len() == 0 || cap <= 0 {
        Seq::empty()
    } else {
        let feed = feeds[0];
        let rest = feeds.drop_first();
        if m.contains_key(feed.id) && m[feed.id].spec_should_display(&feed, config) {
            seq![FeedNotif { feed: feed, jump: m[feed.id].jump }] + spec_display_list(
                rest,
                m,
                config,
                cap - 1,
            )
        } else {
            spec_display_list(rest, m, config, cap)
        }
    }
}

/// The display list only reads the map's entries for the feeds in it.
proof fn lemma_display_agree(
    feeds: Seq<Feed>,
    m1: Map<u32, ListenerStats>,
    m2: Map<u32, ListenerStats>,
    config: &Config,
    cap: int,
)
    requires
        forall|j: int|
            0 <= j < feeds.len() ==> (m1.contains_key((#[trigger] feeds[j]).id) == m2.contains_key(
                feeds[j].id,
            ) && (m1.contains_key(feeds[j].id) ==> m1[feeds[j].id] == m2[feeds[j].id])),
    ensures
        spec_display_list(feeds, m1, config, cap) == spec_display_list(feeds, m2, config, cap),
    decreases feeds.len(),
{
    if feeds.len() > 0 && cap > 0 {
        assert(m1.contains_key(feeds[0].id) == m2.contains_key(feeds[0].id) && (m1.contains_key(
            feeds[0].id,
        ) ==> m1[feeds[0].id] == m2[feeds[0].id]));
        assert forall|j: int|
            0 <= j < feeds.drop_first().len() implies (m1.contains_key(
            (#[trigger] feeds.drop_first()[j]).id,
        ) == m2.contains_key(feeds.drop_first()[j].id) && (m1.contains_key(
            feeds.drop_first()[j].id,
        ) ==> m1[feeds.drop_first()[j].id] == m2[feeds.drop_first()[j].id])) by {
            assert(feeds.drop_first()[j] == feeds[j + 1]);
        }
        if m1.contains_key(feeds[0].id) && m1[feeds[0].id].spec_should_display(&feeds[0], config) {
            lemma_display_agree(feeds.drop_first(), m1, m2, config, cap - 1);
        } else {
            lemma_display_agree(feeds.drop_first(), m1, m2, config, cap);
        }
    }
}

/// Appending one feed to the observation order appends its display entry
/// exactly when its updated statistics say to display and the cap has not
/// been reached.
proof fn lemma_display_snoc(
    feeds: Seq<Feed>,
    f: Feed,
    m: Map<u32, ListenerStats>,
    config: &Config,
    cap: int,
)
    ensures
        spec_display_list(feeds.push(f), m, config, cap) == (if m.contains_key(f.id)
            && m[f.id].spec_should_display(&f, config) && spec_display_list(
            feeds,
            m,
            config,
            cap,
        ).len() < cap {
            spec_display_list(feeds, m, config, cap).push(
                (FeedNotif { feed: f, jump: m[f.id].jump }),
            )
        } else {
            spec_display_list(feeds, m, config, cap)
        }),
    decreases feeds.len(),
{
    if cap <= 0 {
        assert(spec_display_list(feeds.push(f), m, config, cap) =~= spec_display_list(
            feeds,
            m,
            config,
            cap,
        ));
    } else if feeds.len() == 0 {
        assert(feeds.push(f)[0] == f);
        assert(feeds.push(f).drop_first() =~= feeds);
        if m.contains_key(f.id) && m[f.id].spec_should_display(&f, config) {
            assert(seq![FeedNotif { feed: f, jump: m[f.id].jump }] + spec_display_list(
                feeds,
                m,
                config,
                cap - 1,
            ) =~= spec_display_list(feeds, m, config, cap).push(
                (FeedNotif { feed: f, jump: m[f.id].jump }),
            ));
        }
    } else {
        assert(feeds.push(f)[0] == feeds[0]);
        assert(feeds.push(f).drop_first() =~= feeds.drop_first().push(f));
        let rest = feeds.drop_first();
        if m.contains_key(feeds[0].id) && m[feeds[0].id].spec_should_display(&feeds[0], config) {
            lemma_display_snoc(rest, f, m, config, cap - 1);
            let n0 = FeedNotif { feed: feeds[0], jump: m[feeds[0].id].jump };
            let l = spec_display_list(rest, m, config, cap - 1);
            if m.contains_key(f.id) && m[f.id].spec_should_display(&f, config) && l.len() < cap
                - 1 {
                assert(seq![n0] + l.push((FeedNotif { feed: f, jump: m[f.id].jump })) =~= (
                seq![n0] + l).push((FeedNotif { feed: f, jump: m[f.id].jump })));
            }
        } else {
            lemma_display_snoc(rest, f, m, config, cap);
        }
    }
}

/// Runs one polling cycle over the already-filtered feed snapshots.
///
/// For each feed, in order: its statistics entry is looked up or seeded from
/// the historical store, stepped by exactly one cycle, and its historical
/// row is written back to the store; the feeds the updated statistics say to
/// display are collected in observation order, at most `show_max` of them.
pub fn run_update(
    db: &mut HistoricalStore,
    config: &Config,
    cur_hour: u8,
    cur_weekday: Weekday,
    now: i64,
    feeds: Vec<Feed>,
    listener_stats: &mut ListenerStatMap,
) -> (display: Vec<FeedNotif>)
    requires
        old(db).wf(),
        config.spec_wf(),
        spec_stats_wf(old(listener_stats)@),
        forall|j: int, k: int|
            0 <= j < k < feeds@.len() ==> (#[trigger] feeds@[j]).id != (#[trigger] feeds@[k]).id,
    ensures
        final(db).wf(),
        spec_stats_wf(final(listener_stats)@),
        // Every observed feed has a statistics entry afterwards: its prior
        // entry (or the store-seeded entry, on first sighting) stepped by
        // exactly one cycle. The historical row in the store is the entry's.
        forall|j: int|
            0 <= j < feeds@.len() ==> final(listener_stats)@.contains_key(
                (#[trigger] feeds@[j]).id,
            ),
        forall|j: int|
            0 <= j < feeds@.len() ==> spec_cycle_entry(
                old(listener_stats)@,
                old(db)@,
                final(listener_stats)@[(#[trigger] feeds@[j]).id],
                feeds@[j],
                config,
                cur_hour,
                cur_weekday,
                now,
            ),
        forall|j: int|
            0 <= j < feeds@.len() ==> final(db)@.contains_key((#[trigger] feeds@[j]).id)
                && final(db)@[feeds@[j].id] == final(listener_stats)@[feeds@[j].id].listener_avg,
        // Entries and rows of feeds not observed this cycle are untouched.
        forall|id: u32|
            !spec_has_feed_id(feeds@, id) ==> final(listener_stats)@.contains_key(id)
                == old(listener_stats)@.contains_key(id) && (old(
                listener_stats,
            )@.contains_key(id) ==> final(listener_stats)@[id] == old(listener_stats)@[id]),
        forall|id: u32|
            !spec_has_feed_id(feeds@, id) ==> final(db)@.contains_key(id) == old(
                db,
            )@.contains_key(id) && (old(db)@.contains_key(id) ==> final(db)@[id] == old(
                db,
            )@[id]),
        // What is displayed: exactly the observed feeds whose updated
        // statistics say to display, in observation order, capped at
        // `show_max`; each entry carries the jump its statistics computed.
        display@ == spec_display_list(
            feeds@,
            final(listener_stats)@,
            config,
            config.misc.show_max as int,
        ),
        display@.len() <= config.misc.show_max,
        forall|k: int|
            0 <= k < display@.len() ==> spec_has_feed_id(feeds@, (#[trigger] display@[k]).feed.id)
                && final(listener_stats)@.contains_key(display@[k].feed.id)
                && display@[k].jump == final(listener_stats)@[display@[k].feed.id].jump
                && final(listener_stats)@[display@[k].feed.id].spec_should_display(
                &display@[k].feed,
                config,
            ),
    {
        let ghost all_feeds = feeds@;
        let ghost stats0 = listener_stats@;
        let ghost db0 = db@;
        let mut feeds = feeds;
        proof {
            assert(all_feeds.len() == feeds.len());
        }
        let mut display: Vec<FeedNotif> = Vec::new();
        let mut i: usize = 0;
        proof {
            assert(all_feeds.take(0) =~= Seq::<Feed>::empty());
            assert(spec_display_list(
                all_feeds.take(0),
                listener_stats@,
                config,
                config.misc.show_max as int,
            ) =~= Seq::<FeedNotif>::empty());
        }
        while feeds.len() > 0
            invariant
                db.wf(),
                config.spec_wf(),
                spec_stats_wf(listener_stats@),
                all_feeds.len() <= usize::MAX,
                i + feeds@.len() == all_feeds.len(),
                feeds@ == all_feeds.skip(i as int),
                forall|j: int, k: int|
                    0 <= j < k < all_feeds.len() ==> (#[trigger] all_feeds[j]).id
                        != (#[trigger] all_feeds[k]).id,
                forall|j: int|
                    0 <= j < i ==> listener_stats@.contains_key((#[trigger] all_feeds[j]).id),
                forall|j: int|
                    0 <= j < i ==> spec_cycle_entry(
                        stats0,
                        db0,
                        listener_stats@[(#[trigger] all_feeds[j]).id],
                        all_feeds[j],
                        config,
                        cur_hour,
                        cur_weekday,
                        now,
                    ),
                forall|j: int|
                    0 <= j < i ==> db@.contains_key((#[trigger] all_feeds[j]).id)
                        && db@[all_feeds[j].id] == listener_stats@[all_feeds[j].id].listener_avg,
                forall|id: u32| #![trigger stats0.contains_key(id)]
                    !spec_has_feed_id(all_feeds.take(i as int), id) ==> listener_stats@.contains_key(
                        id,
                    ) == stats0.contains_key(id) && (stats0.contains_key(id)
                        ==> listener_stats@[id] == stats0[id]),
                forall|id: u32| #![trigger db0.contains_key(id)]
                    !spec_has_feed_id(all_feeds.take(i as int), id) ==> db@.contains_key(id)
                        == db0.contains_key(id) && (db0.contains_key(id) ==> db@[id] == db0[id]),
                display@.len() <= config.misc.show_max,
                display@ == spec_display_list(
                    all_feeds.take(i as int),
                    listener_stats@,
                    config,
                    config.misc.show_max as int,
                ),
                forall|k: int|
                    0 <= k < display@.len() ==> spec_has_feed_id(
                        all_feeds.take(i as int),
                        (#[trigger] display@[k]).feed.id,
                    ) && listener_stats@.contains_key(display@[k].feed.id)
                        && display@[k].jump == listener_stats@[display@[k].feed.id].jump
                        && listener_stats@[display@[k].feed.id].spec_should_display(
                        &display@[k].feed,
                        config,
                    ),
            decreases feeds@.len(),
        {
            proof {
                assert(feeds@[0] == all_feeds[i as int]);
                let t = all_feeds.take(i + 1);
                assert(t.drop_last() =~= all_feeds.take(i as int));
                assert(t.last() == all_feeds[i as int]);
            }
            let feed = feeds.remove(0);
            let ghost feed_snap = feed;
            let fid = feed.id;
            let ghost stats_pre = listener_stats@;
            let ghost db_pre = db@;
            proof {
                // This feed's id has not been processed yet: ids are unique.
                assert(!spec_has_feed_id(all_feeds.take(i as int), fid)) by {
                    if spec_has_feed_id(all_feeds.take(i as int), fid) {
                        let j = choose|j: int|
                            0 <= j < i && (#[trigger] all_feeds.take(i as int)[j]).id == fid;
                        assert(all_feeds[j].id == all_feeds[i as int].id);
                    }
                }
                assert(stats0.contains_key(fid) == listener_stats@.contains_key(fid));
                assert(stats0.contains_key(fid) ==> listener_stats@[fid] == stats0[fid]);
                assert(db0.contains_key(fid) == db@.contains_key(fid));
                assert(db0.contains_key(fid) ==> db@[fid] == db0[fid]);
            }
            let ghost had_entry = listener_stats@.contains_key(fid);
            let mut stats = match listener_stats.remove(&feed.id) {
                Some(stats) => stats,
                None => {
                    proof {
                        db.lemma_view_ids();
                    }
                    ListenerStats::init_from_db(db, cur_hour, feed.id, feed.listeners, now)
                },
            };
            let ghost pre_entry = stats;
            proof {
                if !had_entry {
                    assert(spec_seeded(pre_entry, db0, cur_hour, fid, feed_snap.listeners, now));
                }
            }
            stats.update(cur_hour, &feed, config, cur_weekday, now);
            stats.save_to_db(db);

            let show = stats.should_display_feed(&feed, config);
            let stats_jump = stats.jump;
            proof {
                assert(stats.wf() && stats.listener_avg.id == fid);
                assert(spec_stepped(
                    pre_entry,
                    stats,
                    feed_snap,
                    config,
                    cur_hour,
                    cur_weekday,
                    now,
                ));
            }
            listener_stats.insert(feed.id, stats);
            let ghost pre_display = display@;

            if show && display.len() < config.misc.show_max as usize {
                let notif = FeedNotif { feed, jump: stats_jump };
                display.push(notif);
            }
            i = i + 1;
            proof {
                assert(feeds@ =~= all_feeds.skip(i as int));
                assert(listener_stats@ == stats_pre.remove(fid).insert(fid, stats));
                assert(db@ == db_pre.insert(fid, stats.listener_avg));
                assert(all_feeds.take(i as int)[i - 1] == all_feeds[i - 1]);
                assert(all_feeds[i - 1].id == fid);
                assert forall|id: u32|
                    !spec_has_feed_id(all_feeds.take(i as int), id) implies (
                    listener_stats@.contains_key(id) == stats0.contains_key(id) && (
                    stats0.contains_key(id) ==> listener_stats@[id] == stats0[id])
                        && db@.contains_key(id) == db0.contains_key(id) && (db0.contains_key(id)
                        ==> db@[id] == db0[id])) by {
                    if spec_has_feed_id(all_feeds.take(i - 1), id) {
                        let j = choose|j: int|
                            0 <= j < i - 1 && (#[trigger] all_feeds.take(i - 1)[j]).id == id;
                        assert(all_feeds.take(i as int)[j] == all_feeds.take(i - 1)[j]);
                    }
                    assert(!spec_has_feed_id(all_feeds.take(i - 1), id));
                    assert(id != fid);
                    assert(stats_pre.contains_key(id) == stats0.contains_key(id));
                    assert(db_pre.contains_key(id) == db0.contains_key(id));
                    assert(listener_stats@.contains_key(id) == stats_pre.contains_key(id));
                    assert(db@.contains_key(id) == db_pre.contains_key(id));
                }
                assert forall|j: int|
                    0 <= j < i implies db@.contains_key((#[trigger] all_feeds[j]).id)
                    && db@[all_feeds[j].id] == listener_stats@[all_feeds[j].id].listener_avg by {
                    if j < i - 1 {
                        assert(all_feeds[j].id != fid);
                    }
                }
                // Per-feed transition: earlier entries are untouched; this
                // feed's entry is its prior (or seeded) state stepped once.
                assert(feed_snap == all_feeds[i - 1]);
                assert(listener_stats@[fid] == stats);
                assert(spec_cycle_entry(
                    stats0,
                    db0,
                    listener_stats@[fid],
                    all_feeds[i - 1],
                    config,
                    cur_hour,
                    cur_weekday,
                    now,
                )) by {
                    if had_entry {
                        assert(pre_entry == stats0[fid]);
                    } else {
                        assert(spec_seeded(
                            pre_entry,
                            db0,
                            cur_hour,
                            fid,
                            all_feeds[i - 1].listeners,
                            now,
                        ) && spec_stepped(
                            pre_entry,
                            stats,
                            all_feeds[i - 1],
                            config,
                            cur_hour,
                            cur_weekday,
                            now,
                        ));
                    }
                }
                assert forall|j: int|
                    0 <= j < i implies spec_cycle_entry(
                    stats0,
                    db0,
                    listener_stats@[(#[trigger] all_feeds[j]).id],
                    all_feeds[j],
                    config,
                    cur_hour,
                    cur_weekday,
                    now,
                ) by {
                    if j < i - 1 {
                        assert(all_feeds[j].id != fid);
                        assert(listener_stats@[all_feeds[j].id] == stats_pre[all_feeds[j].id]);
                    }
                }
                // Display: the observation order grew by one feed; the map
                // changed only at this feed's id.
                let cap = config.misc.show_max as int;
                assert(all_feeds.take(i as int) =~= all_feeds.take(i - 1).push(
                    all_feeds[i - 1],
                ));
                assert forall|j: int|
                    0 <= j < all_feeds.take(i - 1).len() implies (stats_pre.contains_key(
                    (#[trigger] all_feeds.take(i - 1)[j]).id,
                ) == listener_stats@.contains_key(all_feeds.take(i - 1)[j].id) && (
                stats_pre.contains_key(all_feeds.take(i - 1)[j].id) ==> stats_pre[all_feeds.take(
                    i - 1,
                )[j].id] == listener_stats@[all_feeds.take(i - 1)[j].id])) by {
                    assert(all_feeds.take(i - 1)[j] == all_feeds[j]);
                    assert(all_feeds[j].id != fid);
                }
                lemma_display_agree(all_feeds.take(i - 1), stats_pre, listener_stats@, config, cap);
                lemma_display_snoc(
                    all_feeds.take(i - 1),
                    all_feeds[i - 1],
                    listener_stats@,
                    config,
                    cap,
                );
                assert(spec_display_list(all_feeds.take(i - 1), listener_stats@, config, cap)
                    == pre_display);
            }
        }
        proof {
            assert(all_feeds.take(all_feeds.len() as int) =~= all_feeds);
        }
        display
    }

} // verus!
