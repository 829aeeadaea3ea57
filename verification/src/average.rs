//! Fixed-capacity ring buffer of recent listener samples and its mean.

use vstd::prelude::*;
use crate::{RATIO_SCALE, MAX_SCALED};

verus! {

/// Number of samples the ring buffer holds.
pub const SAMPLE_SIZE: usize = 5;

/// Sum of a sequence of samples.
pub open spec fn sum_of(s: Seq<u32>) -> int
    decreases s.len(),
{
    if s.len() == 0 {
        0int
    } else {
        sum_of(s.drop_last()) + s.last()
    }
}

pub proof fn lemma_sum_of_bounds(s: Seq<u32>)
    ensures
        0 <= sum_of(s) <= s.len() * u32::MAX,
    decreases s.len(),
{
    if s.len() > 0 {
        lemma_sum_of_bounds(s.drop_last());
    }
}

/// The mean over the first `populated` slots, scaled by `RATIO_SCALE` and
/// truncated; zero while no slot is populated.
pub open spec fn mean_scaled(data: Seq<u32>, populated: int) -> int {
    if populated <= 0 {
        0int
    } else {
        sum_of(data.take(populated)) * RATIO_SCALE / populated
    }
}

/// A moving average over the `min(populated, SAMPLE_SIZE)` most recently
/// written samples. The slot array is circular: an insert overwrites the
/// slot at `index` (wrapping) and advances it.
pub struct Average {
    /// The mean after the most recent insert, scaled by `RATIO_SCALE`.
    pub current: u64,
    /// The value `current` held just before the most recent insert.
    pub last: u64,
    /// The raw samples.
    pub data: Vec<u32>,
    /// One past the slot written by the most recent insert.
    pub index: usize,
    /// How many slots hold real samples, saturating at `SAMPLE_SIZE`.
    pub populated: usize,
}

impl Average {
    pub open spec fn wf(&self) -> bool {
        &&& self.data@.len() == SAMPLE_SIZE
        &&& self.index <= SAMPLE_SIZE
        &&& self.populated <= SAMPLE_SIZE
        &&& self.current <= MAX_SCALED
        &&& self.last <= MAX_SCALED
    }

    pub open spec fn spec_index(&self) -> int {
        self.index as int
    }

    pub open spec fn spec_populated(&self) -> int {
        self.populated as int
    }

    /// The slot the next insert writes to.
    pub open spec fn spec_insert_at(&self) -> int {
        if self.index >= SAMPLE_SIZE {
            0int
        } else {
            self.index as int
        }
    }

    pub fn new() -> (r: Self)
        ensures
            r.wf(),
            r.current == 0,
            r.last == 0,
            r.spec_populated() == 0,
            r.spec_index() == 0,
            forall|i: int| 0 <= i < SAMPLE_SIZE ==> r.data@[i] == 0,
    {
        Self::with_sample(0)
    }

    /// Seeds `current` without occupying any slot: the seed only serves as
    /// the starting mean until real samples arrive.
    pub fn with_sample(value: u32) -> (r: Self)
        ensures
            r.wf(),
            r.current == value as u64 * RATIO_SCALE,
            r.last == 0,
            r.spec_populated() == 0,
            r.spec_index() == 0,
            forall|i: int| 0 <= i < SAMPLE_SIZE ==> r.data@[i] == 0,
    {
        let mut data: Vec<u32> = Vec::new();
        while data.len() < SAMPLE_SIZE
            invariant
                data@.len() <= SAMPLE_SIZE,
                forall|i: int| 0 <= i < data@.len() ==> data@[i] == 0,
            decreases SAMPLE_SIZE - data@.len(),
        {
            data.push(0);
        }
        Average {
            current: value as u64 * RATIO_SCALE,
            last: 0,
            data,
            index: 0,
            populated: 0,
        }
    }

    /// Writes `value` into the next ring slot and recomputes the mean over
    /// the populated slots; the previous mean moves into `last`.
    pub fn add_sample(&mut self, value: u32)
        requires
            old(self).wf(),
        ensures
            final(self).wf(),
            final(self).data@ == old(self).data@.update(old(self).spec_insert_at(), value),
            final(self).spec_index() == old(self).spec_insert_at() + 1,
            final(self).spec_populated() == if old(self).spec_populated() < old(
                self,
            ).spec_insert_at() + 1 {
                old(self).spec_populated() + 1
            } else {
                old(self).spec_populated()
            },
            final(self).spec_populated() >= 1,
            final(self).last == old(self).current,
            final(self).current == mean_scaled(final(self).data@, final(self).spec_populated()),
    {
        if self.index >= self.data.len() {
            self.index = 0;
        }
        self.data.set(self.index, value);
        self.index = self.index + 1;
        if self.populated < self.index {
            self.populated = self.populated + 1;
        }
        self.last = self.current;

        let mut sum: u64 = 0;
        let mut i: usize = 0;
        while i < self.populated
            invariant
                i <= self.populated,
                self.populated <= SAMPLE_SIZE,
                self.data@.len() == SAMPLE_SIZE,
                sum == sum_of(self.data@.take(i as int)),
                sum <= i * (u32::MAX as u64),
            decreases self.populated - i,
        {
            proof {
                assert(self.data@.take(i + 1).drop_last() =~= self.data@.take(i as int));
                assert(self.data@.take(i + 1).last() == self.data@[i as int]);
            }
            sum = sum + self.data[i] as u64;
            i = i + 1;
        }
        proof {
            lemma_sum_of_bounds(self.data@.take(self.populated as int));
            assert(sum * RATIO_SCALE <= (SAMPLE_SIZE * u32::MAX) * RATIO_SCALE) by {
                vstd::arithmetic::mul::lemma_mul_inequality(
                    sum as int,
                    SAMPLE_SIZE * u32::MAX,
                    RATIO_SCALE as int,
                );
            }
        }
        let mean = sum * RATIO_SCALE / (self.populated as u64);
        proof {
            lemma_mean_bound(self.data@, self.populated as int);
        }
        self.current = mean;
    }
}

/// The truncated scaled mean never exceeds the scaled maximum sample.
pub proof fn lemma_mean_bound(data: Seq<u32>, populated: int)
    requires
        0 < populated <= data.len(),
    ensures
        0 <= mean_scaled(data, populated) <= u32::MAX * RATIO_SCALE,
{
    let s = data.take(populated);
    lemma_sum_of_bounds(s);
    assert(sum_of(s) * RATIO_SCALE <= (populated * u32::MAX) * RATIO_SCALE) by {
        vstd::arithmetic::mul::lemma_mul_inequality(
            sum_of(s),
            populated * u32::MAX,
            RATIO_SCALE as int,
        );
    }
    assert((populated * u32::MAX) * RATIO_SCALE == populated * (u32::MAX * RATIO_SCALE)) by {
        vstd::arithmetic::mul::lemma_mul_is_associative(
            populated,
            u32::MAX as int,
            RATIO_SCALE as int,
        );
    }
    vstd::arithmetic::div_mod::lemma_div_is_ordered(
        sum_of(s) * RATIO_SCALE,
        populated * (u32::MAX * RATIO_SCALE),
        populated,
    );
    vstd::arithmetic::div_mod::lemma_div_multiples_vanish(
        u32::MAX * RATIO_SCALE,
        populated,
    );
    vstd::arithmetic::div_mod::lemma_div_pos_is_pos(sum_of(s) * RATIO_SCALE, populated);
    assert(sum_of(s) * RATIO_SCALE >= 0) by {
        vstd::arithmetic::mul::lemma_mul_nonnegative(sum_of(s), RATIO_SCALE as int);
    }
}

} // verus!
