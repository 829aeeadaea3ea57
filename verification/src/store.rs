//! Bucketed historical baselines: one row per feed, six 4-hour time-of-day
//! buckets, pruned by age.

use vstd::prelude::*;

verus! {

/// How long a row may go unseen before a prune deletes it: 30 days.
pub const RETENTION_SECS: i64 = 30 * 24 * 60 * 60;

/// One persisted row: a feed's baseline listener count for each 4-hour
/// window of the day, and when the feed was last observed.
#[derive(Clone, Copy, Debug, PartialEq, Eq, Structural)]
pub struct ListenerAvg {
    pub id: u32,
    /// Unix timestamp of the last observation of this feed.
    pub last_seen: i64,
    pub utc_0: Option<u32>,
    pub utc_4: Option<u32>,
    pub utc_8: Option<u32>,
    pub utc_12: Option<u32>,
    pub utc_16: Option<u32>,
    pub utc_20: Option<u32>,
}

impl ListenerAvg {
    pub fn new(id: u32, now: i64) -> (r: Self)
        ensures
            r == ListenerAvg::spec_new(id, now),
    {
        ListenerAvg {
            id,
            last_seen: now,
            utc_0: None,
            utc_4: None,
            utc_8: None,
            utc_12: None,
            utc_16: None,
            utc_20: None,
        }
    }

    pub open spec fn spec_new(id: u32, now: i64) -> ListenerAvg {
        ListenerAvg {
            id,
            last_seen: now,
            utc_0: None,
            utc_4: None,
            utc_8: None,
            utc_12: None,
            utc_16: None,
            utc_20: None,
        }
    }

    /// The bucket holding the given hour: out-of-range hours fall into the
    /// first window.
    pub open spec fn spec_for_hour(&self, hour: u8) -> Option<u32> {
        if hour < 4 || hour > 23 {
            self.utc_0
        } else if hour < 8 {
            self.utc_4
        } else if hour < 12 {
            self.utc_8
        } else if hour < 16 {
            self.utc_12
        } else if hour < 20 {
            self.utc_16
        } else {
            self.utc_20
        }
    }

    pub fn for_hour(&self, hour: u8) -> (r: Option<u32>)
        ensures
            r == self.spec_for_hour(hour),
    {
        if hour < 4 || hour > 23 {
            self.utc_0
        } else if hour < 8 {
            self.utc_4
        } else if hour < 12 {
            self.utc_8
        } else if hour < 16 {
            self.utc_12
        } else if hour < 20 {
            self.utc_16
        } else {
            self.utc_20
        }
    }

    /// The row after writing `value` into the bucket for `hour` and bumping
    /// the observation time; all other buckets persist.
    pub open spec fn spec_set_hour(self, hour: u8, value: u32, now: i64) -> ListenerAvg {
        if hour < 4 || hour > 23 {
            ListenerAvg { utc_0: Some(value), last_seen: now, ..self }
        } else if hour < 8 {
            ListenerAvg { utc_4: Some(value), last_seen: now, ..self }
        } else if hour < 12 {
            ListenerAvg { utc_8: Some(value), last_seen: now, ..self }
        } else if hour < 16 {
            ListenerAvg { utc_12: Some(value), last_seen: now, ..self }
        } else if hour < 20 {
            ListenerAvg { utc_16: Some(value), last_seen: now, ..self }
        } else {
            ListenerAvg { utc_20: Some(value), last_seen: now, ..self }
        }
    }

    pub fn set_hour(&mut self, hour: u8, value: u32, now: i64)
        ensures
            *final(self) == old(self).spec_set_hour(hour, value, now),
    {
        if hour < 4 || hour > 23 {
            self.utc_0 = Some(value);
        } else if hour < 8 {
            self.utc_4 = Some(value);
        } else if hour < 12 {
            self.utc_8 = Some(value);
        } else if hour < 16 {
            self.utc_12 = Some(value);
        } else if hour < 20 {
            self.utc_16 = Some(value);
        } else {
            self.utc_20 = Some(value);
        }
        self.last_seen = now;
    }
}

/// The rows of `rows`, as a map from feed id to row; later rows win.
pub open spec fn rows_to_map(rows: Seq<ListenerAvg>) -> Map<u32, ListenerAvg>
    decreases rows.len(),
{
    if rows.len() == 0 {
        Map::empty()
    } else {
        rows_to_map(rows.drop_last()).insert(rows.last().id, rows.last())
    }
}

/// The in-memory historical store: one row per feed id.
#[derive(Debug)]
pub struct HistoricalStore {
    pub rows: Vec<ListenerAvg>,
}

impl View for HistoricalStore {
    type V = Map<u32, ListenerAvg>;

    open spec fn view(&self) -> Map<u32, ListenerAvg> {
        rows_to_map(self.rows@)
    }
}

proof fn lemma_rows_to_map_get(rows: Seq<ListenerAvg>, i: int)
    requires
        0 <= i < rows.len(),
        forall|j: int, k: int|
            0 <= j < k < rows.len() ==> #[trigger] rows[j].id != #[trigger] rows[k].id,
    ensures
        rows_to_map(rows).contains_key(rows[i].id),
        rows_to_map(rows)[rows[i].id] == rows[i],
    decreases rows.len(),
{
    if i + 1 < rows.len() {
        lemma_rows_to_map_get(rows.drop_last(), i);
    }
}

proof fn lemma_rows_to_map_missing(rows: Seq<ListenerAvg>, id: u32)
    requires
        forall|j: int| 0 <= j < rows.len() ==> #[trigger] rows[j].id != id,
    ensures
        !rows_to_map(rows).contains_key(id),
    decreases rows.len(),
{
    if rows.len() > 0 {
        lemma_rows_to_map_missing(rows.drop_last(), id);
    }
}

proof fn lemma_rows_to_map_update(rows: Seq<ListenerAvg>, i: int, row: ListenerAvg)
    requires
        0 <= i < rows.len(),
        rows[i].id == row.id,
        forall|j: int, k: int|
            0 <= j < k < rows.len() ==> #[trigger] rows[j].id != #[trigger] rows[k].id,
    ensures
        rows_to_map(rows.update(i, row)) == rows_to_map(rows).insert(row.id, row),
    decreases rows.len(),
{
    let updated = rows.update(i, row);
    if i + 1 == rows.len() {
        assert(updated.drop_last() =~= rows.drop_last());
        assert(rows_to_map(updated) == rows_to_map(rows.drop_last()).insert(row.id, row));
        assert(rows_to_map(rows).insert(row.id, row) == rows_to_map(rows.drop_last()).insert(
            rows.last().id,
            rows.last(),
        ).insert(row.id, row));
        assert(rows_to_map(rows.drop_last()).insert(row.id, row) =~= rows_to_map(
            rows.drop_last(),
        ).insert(rows.last().id, rows.last()).insert(row.id, row));
    } else {
        assert(updated.drop_last() =~= rows.drop_last().update(i, row));
        lemma_rows_to_map_update(rows.drop_last(), i, row);
        assert(updated.last() == rows.last());
        assert(rows_to_map(updated) == rows_to_map(rows.drop_last()).insert(row.id, row).insert(
            rows.last().id,
            rows.last(),
        ));
        assert(rows.last().id != row.id);
        assert(rows_to_map(rows.drop_last()).insert(row.id, row).insert(rows.last().id, rows.last())
            =~= rows_to_map(rows.drop_last()).insert(rows.last().id, rows.last()).insert(
            row.id,
            row,
        ));
    }
}

proof fn lemma_rows_to_map_ids(rows: Seq<ListenerAvg>)
    ensures
        forall|k: u32|
            rows_to_map(rows).contains_key(k) ==> (#[trigger] rows_to_map(rows)[k]).id == k,
    decreases rows.len(),
{
    if rows.len() > 0 {
        lemma_rows_to_map_ids(rows.drop_last());
    }
}

impl HistoricalStore {
    /// Every row is keyed by its own feed id.
    pub proof fn lemma_view_ids(&self)
        ensures
            forall|k: u32| self@.contains_key(k) ==> (#[trigger] self@[k]).id == k,
    {
        lemma_rows_to_map_ids(self.rows@);
    }

    /// Every feed id appears in at most one row.
    pub open spec fn wf(&self) -> bool {
        forall|j: int, k: int|
            0 <= j < k < self.rows@.len() ==> #[trigger] self.rows@[j].id
                != #[trigger] self.rows@[k].id
    }

    pub fn new() -> (r: Self)
        ensures
            r.wf(),
            r@ == Map::<u32, ListenerAvg>::empty(),
    {
        HistoricalStore { rows: Vec::new() }
    }

    /// The row stored for this feed, if any.
    pub fn get(&self, feed_id: u32) -> (r: Option<ListenerAvg>)
        requires
            self.wf(),
        ensures
            r == if self@.contains_key(feed_id) {
                Some(self@[feed_id])
            } else {
                None::<ListenerAvg>
            },
    {
        let mut i: usize = 0;
        while i < self.rows.len()
            invariant
                i <= self.rows@.len(),
                self.wf(),
                forall|j: int| 0 <= j < i ==> #[trigger] self.rows@[j].id != feed_id,
            decreases self.rows@.len() - i,
        {
            if self.rows[i].id == feed_id {
                proof {
                    lemma_rows_to_map_get(self.rows@, i as int);
                }
                return Some(self.rows[i]);
            }
            i = i + 1;
        }
        proof {
            lemma_rows_to_map_missing(self.rows@, feed_id);
        }
        None
    }

    /// The stored row for this feed, or a fresh one observed `now`.
    pub open spec fn spec_load_or_new(&self, feed_id: u32, now: i64) -> ListenerAvg {
        if self@.contains_key(feed_id) {
            self@[feed_id]
        } else {
            ListenerAvg::spec_new(feed_id, now)
        }
    }

    pub fn load_or_new(&self, feed_id: u32, now: i64) -> (r: ListenerAvg)
        requires
            self.wf(),
        ensures
            r == self.spec_load_or_new(feed_id, now),
    {
        match self.get(feed_id) {
            Some(row) => row,
            None => ListenerAvg::new(feed_id, now),
        }
    }

    /// Inserts or replaces the row for `row.id`.
    pub fn save(&mut self, row: ListenerAvg)
        requires
            old(self).wf(),
        ensures
            final(self).wf(),
            final(self)@ == old(self)@.insert(row.id, row),
    {
        let mut i: usize = 0;
        while i < self.rows.len()
            invariant
                i <= self.rows@.len(),
                self.wf(),
                self.rows@ == old(self).rows@,
                forall|j: int| 0 <= j < i ==> #[trigger] self.rows@[j].id != row.id,
            decreases self.rows@.len() - i,
        {
            if self.rows[i].id == row.id {
                proof {
                    lemma_rows_to_map_update(self.rows@, i as int, row);
                }
                self.rows.set(i, row);
                return ;
            }
            i = i + 1;
        }
        proof {
            let pushed = self.rows@.push(row);
            assert(pushed.drop_last() =~= self.rows@);
        }
        self.rows.push(row);
    }

    /// Deletes every row not observed within the retention window; returns
    /// how many rows were deleted. A row exactly at the cutoff is retained.
    pub fn remove_old_from_db(&mut self, now: i64) -> (removed: usize)
        requires
            old(self).wf(),
            now >= i64::MIN + RETENTION_SECS,
        ensures
            final(self).wf(),
            final(self).rows@ == spec_pruned(old(self).rows@, now),
            removed == old(self).rows@.len() - final(self).rows@.len(),
    {
        proof {
            reveal(Seq::filter);
        }
        let cutoff = now - RETENTION_SECS;
        let mut kept: Vec<ListenerAvg> = Vec::new();
        let mut i: usize = 0;
        while i < self.rows.len()
            invariant
                i <= self.rows@.len(),
                old(self).wf(),
                self.rows@ == old(self).rows@,
                cutoff == now - RETENTION_SECS,
                kept@ == spec_pruned(self.rows@.take(i as int), now),
                kept@.len() <= i,
                forall|j: int| #![trigger kept@[j]]
                    0 <= j < kept@.len() ==> exists|k: int|
                        0 <= k < i && kept@[j] == #[trigger] self.rows@[k],
            decreases self.rows@.len() - i,
        {
            proof {
                reveal(Seq::filter);
                let t = self.rows@.take(i + 1);
                assert(t.drop_last() =~= self.rows@.take(i as int));
                assert(t.last() == self.rows@[i as int]);
            }
            let row = self.rows[i];
            if row.last_seen >= cutoff {
                kept.push(row);
                proof {
                    assert(kept@[kept@.len() - 1] == self.rows@[i as int]);
                }
            }
            i = i + 1;
        }
        proof {
            assert(self.rows@.take(self.rows@.len() as int) =~= self.rows@);
            assert forall|j1: int, j2: int|
                0 <= j1 < j2 < kept@.len() implies #[trigger] kept@[j1].id
                != #[trigger] kept@[j2].id by {
                let k1 = choose|k: int|
                    0 <= k < self.rows@.len() && kept@[j1] == #[trigger] self.rows@[k];
                let k2 = choose|k: int|
                    0 <= k < self.rows@.len() && kept@[j2] == #[trigger] self.rows@[k];
                lemma_pruned_indices(self.rows@, now, j1, j2);
            }
        }
        let removed = self.rows.len() - kept.len();
        self.rows = kept;
        removed
    }
}

/// The rows of `rows` whose `last_seen` lies within the retention window
/// ending at `now`, in their stored order.
pub open spec fn spec_pruned(rows: Seq<ListenerAvg>, now: i64) -> Seq<ListenerAvg> {
    rows.filter(|r: ListenerAvg| r.last_seen >= now - RETENTION_SECS)
}

/// A row observed within the retention window survives the prune.
pub proof fn lemma_prune_keeps_fresh(rows: Seq<ListenerAvg>, now: i64, j: int)
    requires
        0 <= j < rows.len(),
        rows[j].last_seen >= now - RETENTION_SECS,
    ensures
        spec_pruned(rows, now).contains(rows[j]),
    decreases rows.len(),
{
    reveal(Seq::filter);
    let f = spec_pruned(rows, now);
    if j + 1 == rows.len() {
        assert(f[f.len() - 1] == rows[j]);
    } else {
        lemma_prune_keeps_fresh(rows.drop_last(), now, j);
        let fd = spec_pruned(rows.drop_last(), now);
        let k = choose|k: int| 0 <= k < fd.len() && #[trigger] fd[k] == rows.drop_last()[j];
        assert(f[k] == rows[j]);
    }
}

/// Every row that survives the prune was observed within the retention
/// window: nothing fresher than the cutoff is ever deleted, and nothing
/// staler is kept.
pub proof fn lemma_prune_only_fresh(rows: Seq<ListenerAvg>, now: i64, j: int)
    requires
        0 <= j < spec_pruned(rows, now).len(),
    ensures
        spec_pruned(rows, now)[j].last_seen >= now - RETENTION_SECS,
    decreases rows.len(),
{
    reveal(Seq::filter);
    if rows.len() > 0 {
        let f = spec_pruned(rows, now);
        if rows.last().last_seen >= now - RETENTION_SECS && j + 1 == f.len() {
        } else {
            lemma_prune_only_fresh(rows.drop_last(), now, j);
        }
    }
}

/// Distinct positions of the pruned sequence hold rows with distinct ids,
/// provided the store's rows had distinct ids.
proof fn lemma_pruned_indices(s: Seq<ListenerAvg>, now: i64, j1: int, j2: int)
    requires
        0 <= j1 < j2 < spec_pruned(s, now).len(),
        forall|a: int, b: int| 0 <= a < b < s.len() ==> #[trigger] s[a].id != #[trigger] s[b].id,
    ensures
        spec_pruned(s, now)[j1].id != spec_pruned(s, now)[j2].id,
    decreases s.len(),
{
    reveal(Seq::filter);
    if s.len() > 0 {
        let f = spec_pruned(s, now);
        if s.last().last_seen >= now - RETENTION_SECS && j2 + 1 == f.len() {
            // f[j2] is s's final row; f[j1] comes from a strictly earlier row.
            lemma_pruned_membership(s.drop_last(), now, j1);
            let k = choose|k: int|
                0 <= k < s.drop_last().len() && #[trigger] s.drop_last()[k] == spec_pruned(
                    s.drop_last(),
                    now,
                )[j1];
            assert(s[k] == f[j1]);
        } else {
            lemma_pruned_indices(s.drop_last(), now, j1, j2);
        }
    }
}

/// Every row of the pruned sequence occurs in the store.
proof fn lemma_pruned_membership(s: Seq<ListenerAvg>, now: i64, j: int)
    requires
        0 <= j < spec_pruned(s, now).len(),
    ensures
        exists|k: int| 0 <= k < s.len() && #[trigger] s[k] == spec_pruned(s, now)[j],
    decreases s.len(),
{
    reveal(Seq::filter);
    if s.len() > 0 {
        let f = spec_pruned(s, now);
        if s.last().last_seen >= now - RETENTION_SECS && j + 1 == f.len() {
            assert(s[s.len() - 1] == f[j]);
        } else {
            lemma_pruned_membership(s.drop_last(), now, j);
            let k = choose|k: int|
                0 <= k < s.drop_last().len() && #[trigger] s.drop_last()[k] == spec_pruned(
                    s.drop_last(),
                    now,
                )[j];
            assert(s[k] == f[j]);
        }
    }
}

} // verus!
