//! Per-feed statistics: the moving average, the spike classifier, and the
//! drift-resistant ("unskewed") baseline state machine.

use vstd::prelude::*;
use crate::average::{mean_scaled, Average};
use crate::config::{Config, FeedOptions, UnskewedOptions, Weekday};
use crate::feed::Feed;
use crate::store::HistoricalStore;
use crate::{MAX_SCALED, RATIO_SCALE};

verus! {

/// Integer division truncating toward zero.
pub open spec fn spec_div_trunc(a: int, b: int) -> int
    recommends
        b > 0,
{
    if a >= 0 {
        a / b
    } else {
        -((-a) / b)
    }
}

/// Truncating division on possibly negative numerators.
fn div_trunc(a: i128, b: i128) -> (r: i128)
    requires
        b > 0,
        -0x4000_0000_0000_0000_0000_0000_0000_0000 < a,
    ensures
        r == spec_div_trunc(a as int, b as int),
        a >= 0 ==> 0 <= r <= a,
        a < 0 ==> a <= r <= 0,
{
    if a >= 0 {
        proof {
            vstd::arithmetic::div_mod::lemma_div_nonincreasing(a as int, b as int);
            vstd::arithmetic::div_mod::lemma_div_pos_is_pos(a as int, b as int);
        }
        (((a as u128) / (b as u128)) as i128)
    } else {
        proof {
            vstd::arithmetic::div_mod::lemma_div_nonincreasing(-a as int, b as int);
            vstd::arithmetic::div_mod::lemma_div_pos_is_pos(-a as int, b as int);
        }
        -((((-a) as u128) / (b as u128)) as i128)
    }
}

/// Bounds on a product of a bounded factor and a nonnegative bounded factor.
pub proof fn lemma_mul_bounds_signed(x: int, xlo: int, xhi: int, y: int, yhi: int)
    by (nonlinear_arith)
    requires
        xlo <= x <= xhi,
        0 <= y <= yhi,
    ensures
        x * y <= (if xhi * yhi >= 0 { xhi * yhi } else { 0int }),
        x * y >= (if xlo * yhi <= 0 { xlo * yhi } else { 0int }),
{
}

/// The threshold fraction (scaled) the relative jump must reach for the
/// cycle to count as a spike. Low-listener feeds get a raised bar; feeds
/// that are already rising get a lowered one, floored at 0.01.
pub open spec fn spec_threshold(listeners: u32, jump: int, opts: FeedOptions) -> int {
    if listeners < 50 {
        opts.jump_required.0 + (50 - listeners) * opts.low_listener_increase.0
    } else {
        let rise = spec_div_trunc(
            jump * opts.high_listener_dec.0,
            opts.high_listener_dec_every * RATIO_SCALE,
        );
        let cap = opts.jump_required.0 - 100;
        opts.jump_required.0 - (if rise <= cap {
            rise
        } else {
            cap
        })
    }
}

/// Whether a count of `listeners` spikes against the raw moving average
/// `current`, given the baseline-relative `jump` computed this cycle. The
/// boundary is inclusive, and a zeroed average never spikes.
pub open spec fn spec_is_spiking(listeners: u32, current: u64, jump: int, opts: FeedOptions) -> bool {
    &&& current != 0
    &&& listeners * RATIO_SCALE - current >= listeners * spec_threshold(listeners, jump, opts)
}

/// With at least 50 listeners the threshold never drops below 0.01, however
/// fast the feed is already rising.
pub proof fn lemma_threshold_floor(listeners: u32, jump: int, opts: FeedOptions)
    requires
        listeners >= 50,
    ensures
        spec_threshold(listeners, jump, opts) >= 100,
{
}

/// The next state of the unskewed baseline, from the post-sample averages.
///
/// Frozen: released once the raw average is back within `reset_pcnt` of
/// the frozen value; otherwise drifted toward the raw average unless the
/// listener count has jumped far beyond the frozen value. Unset: frozen at
/// the pre-spike average after enough consecutive spikes or one huge jump.
pub open spec fn spec_update_unskewed(
    unskewed: Option<u64>,
    current: u64,
    last: u64,
    listeners: u32,
    spike_count: u32,
    has_spiked: bool,
    jump_required_unskewed: u32,
    uo: UnskewedOptions,
) -> Option<u64> {
    match unskewed {
        Some(v) => {
            if (current - v) * RATIO_SCALE < v * uo.reset_pcnt.0 {
                None
            } else if listeners * RATIO_SCALE * RATIO_SCALE - v * RATIO_SCALE < v
                * jump_required_unskewed {
                Some((v + uo.adjust_pcnt.0 * (current - v) / (RATIO_SCALE as int)) as u64)
            } else {
                Some(v)
            }
        },
        None => {
            if has_spiked && last > 0 && (spike_count > uo.spikes_required || listeners
                * RATIO_SCALE * RATIO_SCALE > last * jump_required_unskewed) {
                Some(last)
            } else {
                None
            }
        },
    }
}

/// Linear interpolation from `v0` toward `v1` by the scaled factor `t`,
/// truncated.
pub fn lerp(v0: u64, v1: u64, t: u32) -> (r: u64)
    requires
        v0 <= v1,
        v1 <= MAX_SCALED,
        t <= RATIO_SCALE,
    ensures
        r == v0 + t * (v1 - v0) / (RATIO_SCALE as int),
        v0 <= r <= v1,
{
    let d = v1 - v0;
    proof {
        vstd::arithmetic::mul::lemma_mul_upper_bound(
            t as int,
            RATIO_SCALE as int,
            d as int,
            MAX_SCALED as int,
        );
        vstd::arithmetic::mul::lemma_mul_nonnegative(t as int, d as int);
    }
    let step = ((t as u128) * (d as u128) / (RATIO_SCALE as u128)) as u64;
    proof {
        assert(t * d <= RATIO_SCALE * d) by {
            vstd::arithmetic::mul::lemma_mul_inequality(t as int, RATIO_SCALE as int, d as int);
        }
        vstd::arithmetic::div_mod::lemma_div_is_ordered(
            t as int * d as int,
            RATIO_SCALE as int * d as int,
            RATIO_SCALE as int,
        );
        vstd::arithmetic::div_mod::lemma_div_multiples_vanish(d as int, RATIO_SCALE as int);
        assert(RATIO_SCALE as int * d as int == d as int * RATIO_SCALE as int);
        vstd::arithmetic::div_mod::lemma_div_pos_is_pos(t as int * d as int, RATIO_SCALE as int);
        assert(t as int * d as int >= 0) by {
            vstd::arithmetic::mul::lemma_mul_nonnegative(t as int, d as int);
        }
    }
    v0 + step
}

/// While the frozen baseline drifts, it moves toward the raw average but
/// never beyond it.
pub proof fn lemma_drift_bounded(v: u64, current: u64, t: u32)
    requires
        v <= current,
        current <= MAX_SCALED,
        t <= RATIO_SCALE,
    ensures
        v <= v + t * (current - v) / (RATIO_SCALE as int) <= current,
{
    let d = current - v;
    assert(t * d <= RATIO_SCALE * d) by {
        vstd::arithmetic::mul::lemma_mul_inequality(t as int, RATIO_SCALE as int, d as int);
    }
    vstd::arithmetic::div_mod::lemma_div_is_ordered(
        t as int * d as int,
        RATIO_SCALE as int * d as int,
        RATIO_SCALE as int,
    );
    vstd::arithmetic::div_mod::lemma_div_multiples_vanish(d as int, RATIO_SCALE as int);
    vstd::arithmetic::div_mod::lemma_div_pos_is_pos(t as int * d as int, RATIO_SCALE as int);
    assert(t as int * d as int >= 0) by {
        vstd::arithmetic::mul::lemma_mul_nonnegative(t as int, d as int);
    }
}

/// The frozen baseline is released exactly when the raw average has caught
/// back up to within `reset_pcnt` of it; the release is decided before any
/// drift is applied, so the freeze clears on the converging cycle and not
/// before.
pub proof fn lemma_release_iff_caught_up(
    v: u64,
    current: u64,
    last: u64,
    listeners: u32,
    spike_count: u32,
    has_spiked: bool,
    jump_required_unskewed: u32,
    uo: UnskewedOptions,
)
    ensures
        (spec_update_unskewed(
            Some(v),
            current,
            last,
            listeners,
            spike_count,
            has_spiked,
            jump_required_unskewed,
            uo,
        ) is None) <==> (current - v) * RATIO_SCALE < v * uo.reset_pcnt.0,
{
}

/// A listener count beyond `jump_required_unskewed` times the pre-spike
/// average freezes the baseline at that average on the very first spiking
/// cycle, without waiting for `spikes_required` consecutive confirmations.
pub proof fn lemma_large_jump_freezes(
    current: u64,
    last: u64,
    listeners: u32,
    spike_count: u32,
    jump_required_unskewed: u32,
    uo: UnskewedOptions,
)
    requires
        last > 0,
        listeners * RATIO_SCALE * RATIO_SCALE > last * jump_required_unskewed,
    ensures
        spec_update_unskewed(
            None,
            current,
            last,
            listeners,
            spike_count,
            true,
            jump_required_unskewed,
            uo,
        ) == Some(last),
{
}

/// Strictly more than `spikes_required` consecutive spikes freeze the
/// baseline at the average as it stood before the spiking sample was
/// admitted.
pub proof fn lemma_consecutive_spikes_freeze(
    current: u64,
    last: u64,
    listeners: u32,
    spike_count: u32,
    jump_required_unskewed: u32,
    uo: UnskewedOptions,
)
    requires
        last > 0,
        spike_count > uo.spikes_required,
    ensures
        spec_update_unskewed(
            None,
            current,
            last,
            listeners,
            spike_count,
            true,
            jump_required_unskewed,
            uo,
        ) == Some(last),
{
}

/// One polling cycle's effect on a feed's statistics: `post` is `pre` with
/// the jump recomputed against the pre-cycle baseline, the spike classified
/// against the pre-sample average, the consecutive-spike count stepped, the
/// raw sample admitted into the ring, the unskewed baseline stepped on the
/// post-sample averages, and the new effective baseline written into the
/// bucket for the hour.
pub open spec fn spec_stepped(
    pre: ListenerStats,
    post: ListenerStats,
    feed: Feed,
    config: &Config,
    hour: u8,
    weekday: Weekday,
    now: i64,
) -> bool {
    &&& post.jump == feed.listeners * RATIO_SCALE - pre.spec_effective_baseline()
    &&& post.has_spiked == spec_is_spiking(
        feed.listeners,
        pre.average.current,
        post.jump as int,
        config.spec_options_for_feed(&feed, weekday),
    )
    &&& post.spike_count == (if post.has_spiked {
        if pre.spike_count < u32::MAX {
            (pre.spike_count + 1) as u32
        } else {
            u32::MAX
        }
    } else {
        0u32
    })
    &&& post.average.data@ == pre.average.data@.update(
        pre.average.spec_insert_at(),
        feed.listeners,
    )
    &&& post.average.spec_index() == pre.average.spec_insert_at() + 1
    &&& post.average.spec_populated() == (if pre.average.spec_populated() < pre.average.spec_insert_at() + 1 {
        pre.average.spec_populated() + 1
    } else {
        pre.average.spec_populated()
    })
    &&& post.average.last == pre.average.current
    &&& post.average.current == mean_scaled(post.average.data@, post.average.spec_populated())
    &&& post.unskewed_average == spec_update_unskewed(
        pre.unskewed_average,
        post.average.current,
        post.average.last,
        feed.listeners,
        post.spike_count,
        post.has_spiked,
        config.spec_options_for_feed(&feed, weekday).jump_required_unskewed.0,
        config.unskewed,
    )
    &&& post.listener_avg == pre.listener_avg.spec_set_hour(
        hour,
        (post.spec_effective_baseline() / RATIO_SCALE) as u32,
        now,
    )
}

/// Freshly seeded statistics for a feed first sighted this run: the ring is
/// empty, its starting mean comes from the store's bucket for the current
/// hour (or from the live count when no bucket exists), and the historical
/// row is the stored one or a fresh row observed `now`.
pub open spec fn spec_seeded(
    post: ListenerStats,
    db: Map<u32, crate::store::ListenerAvg>,
    hour: u8,
    feed_id: u32,
    cur_listeners: u32,
    now: i64,
) -> bool {
    let row = if db.contains_key(feed_id) {
        db[feed_id]
    } else {
        crate::store::ListenerAvg::spec_new(feed_id, now)
    };
    &&& post.listener_avg == row
    &&& post.average.current == (match row.spec_for_hour(hour) {
        Some(l) => l as u64 * RATIO_SCALE,
        None => cur_listeners as u64 * RATIO_SCALE,
    })
    &&& post.average.last == 0
    &&& post.average.spec_populated() == 0
    &&& post.average.spec_index() == 0
    &&& post.average.data@.len() == crate::average::SAMPLE_SIZE
    &&& (forall|i: int| 0 <= i < post.average.data@.len() ==> post.average.data@[i] == 0)
    &&& post.unskewed_average is None
    &&& post.jump == 0
    &&& !post.has_spiked
    &&& post.spike_count == 0
}

/// Statistical state for one feed, updated once per polling cycle.
pub struct ListenerStats {
    /// The persisted time-of-day baselines for this feed.
    pub listener_avg: crate::store::ListenerAvg,
    /// The rolling average of raw listener samples.
    pub average: Average,
    /// The frozen pre-spike baseline, while one is in effect (scaled).
    pub unskewed_average: Option<u64>,
    /// Scaled delta between this cycle's listeners and the effective
    /// baseline, as computed before the sample was admitted.
    pub jump: i64,
    /// Whether the most recent cycle classified as a spike.
    pub has_spiked: bool,
    /// How many consecutive cycles have spiked.
    pub spike_count: u32,
}

impl ListenerStats {
    pub open spec fn wf(&self) -> bool {
        &&& self.average.wf()
        &&& match self.unskewed_average {
            Some(v) => 0 < v <= MAX_SCALED,
            None => true,
        }
        &&& -(MAX_SCALED as int) <= self.jump <= MAX_SCALED as int
    }

    /// The baseline spikes are measured against: the frozen unskewed value
    /// while one is in effect, else the raw moving average.
    pub open spec fn spec_effective_baseline(&self) -> u64 {
        match self.unskewed_average {
            Some(v) => v,
            None => self.average.current,
        }
    }

    /// Fresh statistics seeded from the historical store's bucket for the
    /// current hour, or from the live listener count when no bucket exists.
    pub fn init_from_db(
        db: &HistoricalStore,
        hour: u8,
        feed_id: u32,
        cur_listeners: u32,
        now: i64,
    ) -> (r: Self)
        requires
            db.wf(),
        ensures
            r.wf(),
            spec_seeded(r, db@, hour, feed_id, cur_listeners, now),
    {
        let listener_avg = db.load_or_new(feed_id, now);
        let listeners = match listener_avg.for_hour(hour) {
            Some(l) => l,
            None => cur_listeners,
        };
        ListenerStats {
            listener_avg,
            average: Average::with_sample(listeners),
            unskewed_average: None,
            jump: 0,
            has_spiked: false,
            spike_count: 0,
        }
    }

    /// The effective baseline, scaled by `RATIO_SCALE`.
    pub fn current_listener_average(&self) -> (r: u64)
        ensures
            r == self.spec_effective_baseline(),
    {
        match self.unskewed_average {
            Some(v) => v,
            None => self.average.current,
        }
    }

    /// Classifies this cycle against the pre-update state: see
    /// [`spec_is_spiking`].
    pub fn is_spiking(&self, feed: &Feed, config: &Config, weekday: Weekday) -> (r: bool)
        requires
            self.wf(),
            config.spec_wf(),
        ensures
            r == spec_is_spiking(
                feed.listeners,
                self.average.current,
                self.jump as int,
                config.spec_options_for_feed(feed, weekday),
            ),
    {
        if self.average.current == 0 {
            return false;
        }
        let opts = config.options_for_feed(feed, weekday);
        let jump_required = opts.jump_required.as_mult() as i128;
        let listeners = feed.listeners as i128;

        let threshold: i128 = if feed.listeners < 50 {
            proof {
                lemma_mul_bounds_signed(
                    50 - listeners as int,
                    1,
                    50,
                    opts.low_listener_increase.0 as int,
                    0x1_0000_0000,
                );
            }
            jump_required + (50 - listeners) * (opts.low_listener_increase.as_mult() as i128)
        } else {
            proof {
                assert(MAX_SCALED == 42949672950000u64);
                assert(-42949672950000 <= self.jump as int <= 42949672950000);
                lemma_mul_bounds_signed(
                    self.jump as int,
                    -42949672950000,
                    42949672950000,
                    opts.high_listener_dec.0 as int,
                    0x1_0000_0000,
                );
                lemma_mul_bounds_signed(
                    opts.high_listener_dec_every as int,
                    0,
                    0x1_0000_0000,
                    RATIO_SCALE as int,
                    10000,
                );
            }
            let rise = div_trunc(
                (self.jump as i128) * (opts.high_listener_dec.as_mult() as i128),
                (opts.high_listener_dec_every as i128) * (RATIO_SCALE as i128),
            );
            let cap = jump_required - 100;
            jump_required - (if rise <= cap {
                rise
            } else {
                cap
            })
        };

        proof {
            assert(0 <= threshold <= 0x1_0000_0000_0000_0000_0000);
            lemma_mul_bounds_signed(
                listeners as int,
                0,
                0x1_0000_0000,
                threshold as int,
                0x1_0000_0000_0000_0000_0000,
            );
        }
        let lhs = (feed.listeners as u64) * RATIO_SCALE;
        (lhs as i128) - (self.average.current as i128) >= listeners * threshold
    }

    /// One freeze / release / drift step of the unskewed baseline: see
    /// [`spec_update_unskewed`].
    fn update_unskewed_average(&mut self, listeners: u32, jump_required_unskewed: u32, uo: UnskewedOptions)
        requires
            old(self).wf(),
            uo.spec_wf(),
        ensures
            final(self).unskewed_average == spec_update_unskewed(
                old(self).unskewed_average,
                old(self).average.current,
                old(self).average.last,
                listeners,
                old(self).spike_count,
                old(self).has_spiked,
                jump_required_unskewed,
                uo,
            ),
            final(self).listener_avg == old(self).listener_avg,
            final(self).average == old(self).average,
            final(self).jump == old(self).jump,
            final(self).has_spiked == old(self).has_spiked,
            final(self).spike_count == old(self).spike_count,
            final(self).wf(),
    {
        let s = RATIO_SCALE as i128;
        let listeners_scaled = (listeners as u64) * RATIO_SCALE;
        let listeners_scaled2 = (listeners_scaled as i128) * s;
        proof {
            lemma_mul_bounds_signed(
                listeners_scaled as int,
                0,
                0x2710_0000_0000,
                s as int,
                10000,
            );
        }
        match self.unskewed_average {
            Some(unskewed) => {
                let v = unskewed as i128;
                let current = self.average.current as i128;
                proof {
                    lemma_mul_bounds_signed(
                        current - v,
                        -0x2710_0000_0000,
                        0x2710_0000_0000,
                        s as int,
                        10000,
                    );
                    lemma_mul_bounds_signed(
                        v as int,
                        0,
                        0x2710_0000_0000,
                        uo.reset_pcnt.0 as int,
                        0x1_0000_0000,
                    );
                    lemma_mul_bounds_signed(v as int, 0, 0x2710_0000_0000, s as int, 10000);
                    lemma_mul_bounds_signed(
                        v as int,
                        0,
                        0x2710_0000_0000,
                        jump_required_unskewed as int,
                        0x1_0000_0000,
                    );
                }
                if (current - v) * s < v * (uo.reset_pcnt.as_mult() as i128) {
                    self.unskewed_average = None;
                } else if listeners_scaled2 - v * s < v * (jump_required_unskewed as i128) {
                    let drifted = lerp(unskewed, self.average.current, uo.adjust_pcnt.as_mult());
                    self.unskewed_average = Some(drifted);
                } else {
                    // The listener count is still far beyond the frozen
                    // value: hold the baseline where it is.
                }
            },
            None => {
                if self.has_spiked && self.average.last > 0 {
                    let has_spiked_enough = self.spike_count > uo.spikes_required;
                    proof {
                        lemma_mul_bounds_signed(
                            self.average.last as int,
                            0,
                            0x2710_0000_0000,
                            jump_required_unskewed as int,
                            0x1_0000_0000,
                        );
                    }
                    let has_large_jump = listeners_scaled2 > (self.average.last as i128)
                        * (jump_required_unskewed as i128);
                    if has_spiked_enough || has_large_jump {
                        self.unskewed_average = Some(self.average.last);
                    }
                }
            },
        }
    }

    /// Runs one polling cycle for this feed: computes the jump against the
    /// pre-update baseline, classifies the spike, admits the raw sample,
    /// steps the unskewed baseline, and writes the new effective baseline
    /// into the bucket for the current hour.
    pub fn update(
        &mut self,
        hour: u8,
        feed: &Feed,
        config: &Config,
        weekday: Weekday,
        now: i64,
    )
        requires
            old(self).wf(),
            config.spec_wf(),
        ensures
            final(self).wf(),
            spec_stepped(*old(self), *final(self), *feed, config, hour, weekday, now),
    {
        let opts = config.options_for_feed(feed, weekday);

        let baseline = self.current_listener_average();
        let listeners_scaled = (feed.listeners as u64) * RATIO_SCALE;
        self.jump = (listeners_scaled as i64) - (baseline as i64);
        self.has_spiked = self.is_spiking(feed, config, weekday);

        self.spike_count = if self.has_spiked {
            if self.spike_count < u32::MAX {
                self.spike_count + 1
            } else {
                u32::MAX
            }
        } else {
            0
        };

        self.average.add_sample(feed.listeners);
        self.update_unskewed_average(
            feed.listeners,
            opts.jump_required_unskewed.as_mult(),
            config.unskewed,
        );

        let new_baseline = self.current_listener_average() / RATIO_SCALE;
        self.listener_avg.set_hour(hour, new_baseline as u32, now);
    }

    /// Whether this feed is surfaced to the user this cycle: it spiked, or
    /// it carries an alert and alerts are shown — unless it has already been
    /// surfaced more than the configured number of consecutive times.
    pub fn should_display_feed(&self, feed: &Feed, config: &Config) -> (r: bool)
        ensures
            r == self.spec_should_display(feed, config),
    {
        if let Some(max_times) = config.misc.show_max_times {
            if self.spike_count > max_times {
                return false;
            }
        }
        let has_alert = feed.alert.is_some() && config.misc.show_alert_feeds;
        self.has_spiked || has_alert
    }

    pub open spec fn spec_should_display(&self, feed: &Feed, config: &Config) -> bool {
        &&& match config.misc.show_max_times {
            Some(max_times) => self.spike_count <= max_times,
            None => true,
        }
        &&& (self.has_spiked || (feed.alert is Some && config.misc.show_alert_feeds))
    }

    /// Writes this feed's historical row into the store.
    pub fn save_to_db(&self, db: &mut HistoricalStore)
        requires
            old(db).wf(),
        ensures
            final(db).wf(),
            final(db)@ == old(db)@.insert(self.listener_avg.id, self.listener_avg),
    {
        db.save(self.listener_avg);
    }
}

} // verus!
