//! The figures behind the statistics: for each unit the sample of its totals
//! over all rolls, and what is counted from the sample.

use vstd::prelude::*;
use std::rc::Rc;
use crate::share::share;
use crate::units::Unit;
use crate::rollers::stats::tally::{
    lemma_tallied_rolls, lemma_tally_slot, lemma_tally_slot_is, tallied, tallied_all,
    tallied_rolls, totals_of, Tally,
};
use crate::value::{distinct_keys, Value, Values};

verus! {

/// Whether `s` ascends: no number is followed by a lower one.
pub open spec fn ascending(s: Seq<i32>) -> bool {
    forall|i: int, j: int| 0 <= i < j < s.len() ==> s[i] <= s[j]
}

/// How often `x` occurs in `s`.
pub open spec fn occurrences(s: Seq<i32>, x: i32) -> nat
    decreases s.len(),
{
    if s.len() == 0 {
        0
    } else if s.last() == x {
        occurrences(s.drop_last(), x) + 1
    } else {
        occurrences(s.drop_last(), x)
    }
}

/// The sum of the numbers of `s`.
pub open spec fn int_sum(s: Seq<i32>) -> int
    decreases s.len(),
{
    if s.len() == 0 {
        0
    } else {
        int_sum(s.drop_last()) + s.last()
    }
}

/// The sum of the squares of the numbers of `s`.
pub open spec fn square_sum(s: Seq<i32>) -> int
    decreases s.len(),
{
    if s.len() == 0 {
        0
    } else {
        square_sum(s.drop_last()) + s.last() * s.last()
    }
}

/// Whether `m` is the mode of `s`: it occurs in `s`, no number occurs more
/// often, and it is the lowest of the numbers that occur as often.
pub open spec fn is_mode(s: Seq<i32>, m: i32) -> bool {
    &&& occurrences(s, m) > 0
    &&& forall|x: i32| occurrences(s, x) <= occurrences(s, m)
    &&& forall|x: i32| occurrences(s, x) == occurrences(s, m) ==> m <= x
}

/// Whether `sample` is what `present` becomes when it is filled up with
/// zeros to `size` numbers and sorted.
pub open spec fn is_sample(sample: Seq<i32>, present: Seq<i32>, size: nat) -> bool {
    &&& ascending(sample)
    &&& sample.len() == if present.len() < size {
        size
    } else {
        present.len()
    }
    &&& forall|x: i32|
        occurrences(sample, x) == #[trigger] occurrences(present, x) + if x == 0 && present.len()
            < size {
            size - present.len()
        } else {
            0
        }
}

/// One more number occurs once more; every other number occurs as often as
/// it did.
pub proof fn lemma_occurrences_push(s: Seq<i32>, y: i32, x: i32)
    ensures
        occurrences(s.push(y), x) == occurrences(s, x) + if x == y {
            1nat
        } else {
            0nat
        },
{
    assert(s.push(y).drop_last() =~= s);
}

/// A number occurs at most as often as the list is long, and a number that
/// stands nowhere in the list occurs 0 times.
pub proof fn lemma_occurrences_bound(s: Seq<i32>, x: i32)
    ensures
        occurrences(s, x) <= s.len(),
        (forall|i: int| 0 <= i < s.len() ==> s[i] != x) ==> occurrences(s, x) == 0,
    decreases s.len(),
{
    if s.len() > 0 {
        lemma_occurrences_bound(s.drop_last(), x);
        if forall|i: int| 0 <= i < s.len() ==> s[i] != x {
            assert forall|i: int| 0 <= i < s.drop_last().len() implies s.drop_last()[i] != x by {}
        }
    }
}

/// The sum of a list lies within the range of `i32` times its length.
pub proof fn lemma_int_sum_bound(s: Seq<i32>)
    ensures
        -0x8000_0000 * s.len() <= int_sum(s) <= 0x7fff_ffff * s.len(),
        0 <= square_sum(s) <= 0x4000_0000_0000_0000 * s.len(),
    decreases s.len(),
{
    if s.len() > 0 {
        lemma_int_sum_bound(s.drop_last());
        let x = s.last() as int;
        assert(0 <= x * x <= 0x4000_0000_0000_0000) by (nonlinear_arith)
            requires
                -0x8000_0000 <= x <= 0x7fff_ffff,
        ;
    }
}

/// Calls `<[i32]>::sort`, which sorts the numbers in ascending order: the
/// result ascends and holds every number as often as before.
#[verifier::external_body]
fn sort_ascending(values: &mut Vec<i32>)
    ensures
        ascending(final(values)@),
        final(values)@.len() == old(values)@.len(),
        forall|x: i32| occurrences(final(values)@, x) == #[trigger] occurrences(old(values)@, x),
{
    values.sort();
}

/// Whether `values` ascend.
fn is_ascending(values: &Vec<i32>) -> (b: bool)
    ensures
        b == ascending(values@),
{
    let mut i: usize = 1;
    while i < values.len()
        invariant
            1 <= i,
            forall|a: int, b: int| 0 <= a < b < i && b < values@.len() ==> values@[a] <= values@[b],
        decreases values.len() - i,
    {
        if values[i - 1] > values[i] {
            return false;
        }
        i += 1;
    }
    true
}

/// A copy of `values`.
fn copy_of(values: &Vec<i32>) -> (r: Vec<i32>)
    ensures
        r@ == values@,
{
    let mut copy: Vec<i32> = Vec::with_capacity(values.len());
    let mut i: usize = 0;
    while i < values.len()
        invariant
            i <= values.len(),
            copy@ == values@.take(i as int),
        decreases values.len() - i,
    {
        copy.push(values[i]);
        i += 1;
    }
    copy
}

/// The mode of the sorted list `values`: the number with the longest run, and
/// of several such numbers the lowest.
fn mode_of_sorted(values: &Vec<i32>) -> (r: i32)
requires
    values@.len() > 0,
    ascending(values@),
ensures
    is_mode(values@, r),
{
    let mut best = values[0];
    let mut best_count: usize = 1;
    let mut run: usize = 1;
    let mut i: usize = 1;
    proof {
        let first = values@.take(1);
        assert(first.drop_last() =~= Seq::<i32>::empty());
        assert forall|x: i32| occurrences(first, x) == if x == first[0] {
            1nat
        } else {
            0nat
        } by {
            lemma_occurrences_push(Seq::<i32>::empty(), first[0], x);
        }
    }
    while i < values.len()
        invariant
            1 <= i <= values.len(),
            ascending(values@),
            1 <= run <= i,
            1 <= best_count <= i,
            run == occurrences(values@.take(i as int), values@[i - 1]),
            best_count == occurrences(values@.take(i as int), best),
            best <= values@[i - 1],
            forall|x: i32| occurrences(values@.take(i as int), x) <= best_count,
            forall|x: i32|
                occurrences(values@.take(i as int), x) == best_count ==> best <= x,
        decreases values.len() - i,
    {
        let ghost before = values@.take(i as int);
        let ghost now = values@.take(i + 1);
        let y = values[i];
        proof {
            assert(now =~= before.push(y));
            assert forall|x: i32| occurrences(now, x) == occurrences(before, x) + if x == y {
                1nat
            } else {
                0nat
            } by {
                lemma_occurrences_push(before, y, x);
            }
            if y != values@[i - 1] {
                assert forall|j: int| 0 <= j < before.len() implies before[j] != y by {}
                lemma_occurrences_bound(before, y);
            }
        }
        if y == values[i - 1] {
            run = run + 1;
        } else {
            run = 1;
        }
        if run > best_count {
            best = y;
            best_count = run;
        }
        i += 1;
    }
    assert(values@.take(values.len() as int) =~= values@);
    best
}

/// The sample of one unit while it is collected, and what is counted from it
/// once it is complete.
#[derive(Debug)]
pub struct UnitStatsCalculator {
    pub unit: Rc<Unit>,
    pub values: Vec<i32>,
    pub size: usize,
}

/// What was counted from the sample of one unit.
///
/// All figures are exact. The average is `sum` divided by the number of
/// values; the median is the mean of the two numbers of `median`, which are
/// the same number for a sample of odd length; the variance is
/// `scaled_variance` divided by the square of the number of values.
#[derive(Debug)]
pub struct UnitStats {
    pub unit: Rc<Unit>,
    pub values: Vec<i32>,
    pub sum: i64,
    pub median: (i32, i32),
    pub mode: i32,
    pub scaled_variance: i128,
}

impl UnitStats {
    /// Whether the figures are those of the values.
    pub open spec fn wf(&self) -> bool {
        let n = self.values@.len() as int;
        &&& n > 0
        &&& self.sum == int_sum(self.values@)
        &&& self.median == (self.values@[(n - 1) / 2], self.values@[n / 2])
        &&& is_mode(self.values@, self.mode)
        &&& self.scaled_variance == n * square_sum(self.values@) - int_sum(self.values@) * int_sum(
            self.values@,
        )
    }

    /// Whether the figures are for `unit`.
    pub fn has_same_unit(&self, unit: &Rc<Unit>) -> (b: bool)
        ensures
            b == (self.unit.spec_id() == unit.spec_id()),
    {
        self.unit.id() == unit.id()
    }
}

impl UnitStatsCalculator {
    /// Whether figures can be counted from the sample: it is not empty, and no
    /// longer than a count of runs can be.
    pub open spec fn complete(&self) -> bool {
        0 < self.values@.len() <= u32::MAX
    }

    /// The sample of the unit of `value` that holds its amount, to be filled
    /// up to `size` values.
    pub fn new(value: Value, size: u32) -> (r: UnitStatsCalculator)
        ensures
            r.unit == value.unit,
            r.values@ == seq![value.value],
            r.size == size,
    {
        let mut values: Vec<i32> = Vec::new();
        values.push(value.value);
        UnitStatsCalculator { unit: value.unit, values, size: size as usize }
    }

    /// Adds the amount of `value` to the sample if `value` is of its unit,
    /// and says whether it did.
    pub fn add_on_match(&mut self, value: Value) -> (b: bool)
        ensures
            b == (old(self).unit.spec_id() == value.key()),
            final(self).unit == old(self).unit,
            final(self).size == old(self).size,
            final(self).values@ == if b {
                old(self).values@.push(value.value)
            } else {
                old(self).values@
            },
    {
        if self.has_same_unit(&value.unit) {
            self.values.push(value.value);
            true
        } else {
            false
        }
    }

    /// Whether the sample is for `relationship`.
    pub fn has_same_unit(&self, relationship: &Rc<Unit>) -> (b: bool)
        ensures
            b == (self.unit.spec_id() == relationship.spec_id()),
    {
        self.unit.id() == relationship.id()
    }

    /// Fills the sample up with zeros to its size, then sorts it.
    pub fn finish(&mut self)
        ensures
            final(self).unit == old(self).unit,
            final(self).size == old(self).size,
            is_sample(final(self).values@, old(self).values@, old(self).size as nat),
    {
        let ghost present = self.values@;
        while self.values.len() < self.size
            invariant
                self.unit == old(self).unit,
                self.size == old(self).size,
                present == old(self).values@,
                present.len() <= self.values@.len(),
                self.values@.len() <= self.size || self.values@ == present,
                forall|x: i32|
                    occurrences(self.values@, x) == #[trigger] occurrences(present, x) + if x == 0 {
                        self.values@.len() - present.len()
                    } else {
                        0
                    },
            decreases self.size - self.values.len(),
        {
            proof {
                assert forall|x: i32|
                    occurrences(self.values@.push(0), x) == #[trigger] occurrences(present, x)
                        + if x == 0 {
                        self.values@.len() + 1 - present.len()
                    } else {
                        0
                    } by {
                    lemma_occurrences_push(self.values@, 0, x);
                }
            }
            self.values.push(0);
        }
        sort_ascending(&mut self.values);
        proof {
            assert forall|x: i32|
                occurrences(self.values@, x) == #[trigger] occurrences(present, x) + if x == 0
                    && present.len() < self.size {
                    self.size - present.len()
                } else {
                    0
                } by {}
        }
    }

    /// The sum of the sample.
    pub fn sum(&self) -> (r: i64)
        requires
            self.values@.len() <= u32::MAX,
        ensures
            r == int_sum(self.values@),
    {
        let mut total: i64 = 0;
        let mut i: usize = 0;
        while i < self.values.len()
            invariant
                i <= self.values.len(),
                self.values@.len() <= u32::MAX,
                total == int_sum(self.values@.take(i as int)),
            decreases self.values.len() - i,
        {
            proof {
                lemma_int_sum_bound(self.values@.take(i as int));
                assert(self.values@.take(i + 1).drop_last() =~= self.values@.take(i as int));
            }
            total = total + self.values[i] as i64;
            i += 1;
        }
        assert(self.values@.take(self.values.len() as int) =~= self.values@);
        total
    }

    /// The sum of the squares of the sample.
    pub fn square_sum(&self) -> (r: i128)
        requires
            self.values@.len() <= u32::MAX,
        ensures
            r == square_sum(self.values@),
    {
        let mut total: i128 = 0;
        let mut i: usize = 0;
        while i < self.values.len()
            invariant
                i <= self.values.len(),
                self.values@.len() <= u32::MAX,
                total == square_sum(self.values@.take(i as int)),
            decreases self.values.len() - i,
        {
            let x = self.values[i] as i128;
            proof {
                lemma_int_sum_bound(self.values@.take(i as int));
                assert(self.values@.take(i + 1).drop_last() =~= self.values@.take(i as int));
                assert(0 <= x * x <= 0x4000_0000_0000_0000) by (nonlinear_arith)
                    requires
                        -0x8000_0000 <= x <= 0x7fff_ffff,
                ;
            }
            total = total + x * x;
            i += 1;
        }
        assert(self.values@.take(self.values.len() as int) =~= self.values@);
        total
    }

    /// The two numbers in the middle of the sample: the median is their
    /// mean. For a sample of odd length both are the number in the middle.
    pub fn median(&self) -> (r: (i32, i32))
        requires
            self.values@.len() > 0,
        ensures
            r == (
                self.values@[(self.values@.len() - 1) / 2],
                self.values@[self.values@.len() as int / 2],
            ),
    {
        let mid = self.values.len() / 2;
        if self.values.len() % 2 == 0 {
            (self.values[mid - 1], self.values[mid])
        } else {
            (self.values[mid], self.values[mid])
        }
    }

    /// The mode of the sample: the number that occurs most often, and of
    /// several such numbers the lowest.
    pub fn mode(&self) -> (r: i32)
        requires
            self.values@.len() > 0,
        ensures
            is_mode(self.values@, r),
    {
        if is_ascending(&self.values) {
            mode_of_sorted(&self.values)
        } else {
            let mut sorted = copy_of(&self.values);
            sort_ascending(&mut sorted);
            mode_of_sorted(&sorted)
        }
    }

    /// The square of the number of values times the variance of the sample:
    /// the number of values times the sum of the squares, less the square of
    /// the sum.
    pub fn scaled_variance(&self) -> (r: i128)
        requires
            self.values@.len() <= u32::MAX,
        ensures
            r == self.values@.len() * square_sum(self.values@) - int_sum(self.values@) * int_sum(
                self.values@,
            ),
    {
        let n = self.values.len() as i128;
        let sum = self.sum() as i128;
        let squares = self.square_sum();
        proof {
            lemma_int_sum_bound(self.values@);
            let s = int_sum(self.values@);
            let q = square_sum(self.values@);
            assert(0 <= n * q <= 0x1_0000_0000 * 0x4000_0000_0000_0000_0000_0000) by (
                nonlinear_arith)
                requires
                    0 <= n <= 0xffff_ffff,
                    0 <= q <= 0x4000_0000_0000_0000 * n,
            ;
            assert(0 <= s * s <= 0x8000_0000_0000_0000 * 0x8000_0000_0000_0000) by (nonlinear_arith)
                requires
                    -0x8000_0000 * n <= s <= 0x7fff_ffff * n,
                    0 <= n <= 0xffff_ffff,
            ;
        }
        n * squares - sum * sum
    }

    /// Counts every figure from the complete sample.
    pub fn calc_all(self) -> (r: UnitStats)
        requires
            self.complete(),
        ensures
            r.wf(),
            r.unit == self.unit,
            r.values == self.values,
    {
        let sum = self.sum();
        let median = self.median();
        let mode = self.mode();
        let scaled_variance = self.scaled_variance();
        UnitStats {
            unit: share(&self.unit),
            values: self.values,
            sum,
            median,
            mode,
            scaled_variance,
        }
    }
}

impl UnitStatsCalculator {
    /// The unit and the amounts collected.
    pub open spec fn view(&self) -> Tally {
        Tally { unit: self.unit, values: self.values@ }
    }
}

/// The tallies of `stats`.
pub open spec fn tallies_of(stats: Seq<UnitStatsCalculator>) -> Seq<Tally> {
    stats.map_values(|c: UnitStatsCalculator| c.view())
}

/// Whether `stats` are the complete samples of the tallies `tallies`, each
/// filled up to `size` values and sorted.
pub open spec fn are_samples(
    stats: Seq<UnitStatsCalculator>,
    tallies: Seq<Tally>,
    size: nat,
) -> bool {
    &&& stats.len() == tallies.len()
    &&& forall|i: int|
        0 <= i < stats.len() ==> (#[trigger] stats[i]).unit == tallies[i].unit && is_sample(
            stats[i].values@,
            tallies[i].values,
            size,
        )
}

/// Whether `after` holds the samples of `before`, each with the size it had,
/// and after them only samples of the size `size`.
pub open spec fn keeps_sizes(
    before: Seq<UnitStatsCalculator>,
    after: Seq<UnitStatsCalculator>,
    size: u32,
) -> bool {
    &&& before.len() <= after.len()
    &&& forall|j: int| 0 <= j < before.len() ==> (#[trigger] after[j]).size == before[j].size
    &&& forall|j: int| before.len() <= j < after.len() ==> (#[trigger] after[j]).size == size
}

/// Collects, for each unit, the sample of its totals over a number of rolls.
#[derive(Debug)]
pub struct CollectedStatsBuilder {
    pub stats: Vec<UnitStatsCalculator>,
}

impl CollectedStatsBuilder {
    /// The samples of the units of `roll_vals`, the totals of so many rolls:
    /// the units in the order in which they first occur, each sample with one
    /// number for each roll (a 0 where the roll has no amount for the unit),
    /// sorted.
    pub fn new(roll_vals: Vec<Values>) -> (r: CollectedStatsBuilder)
        requires
            roll_vals@.len() <= u32::MAX,
        ensures
            are_samples(
                r.stats@,
                tallied_rolls(Seq::empty(), totals_of(roll_vals@)),
                roll_vals@.len(),
            ),
            forall|i: int| 0 <= i < r.stats@.len() ==> (#[trigger] r.stats@[i]).complete(),
    {
        let size = roll_vals.len();
        let mut out = CollectedStatsBuilder { stats: Vec::new() };
        let mut i: usize = 0;
        let ghost all = totals_of(roll_vals@);
        while i < roll_vals.len()
            invariant
                i <= roll_vals.len(),
                size == roll_vals.len(),
                size <= u32::MAX,
                all == totals_of(roll_vals@),
                tallies_of(out.stats@) == tallied_rolls(Seq::empty(), all.take(i as int)),
                forall|j: int| 0 <= j < i ==> distinct_keys(#[trigger] all[j]),
                forall|j: int|
                    0 <= j < out.stats@.len() ==> (#[trigger] out.stats@[j]).size == size,
            decreases roll_vals.len() - i,
        {
            proof {
                assert(all.take(i + 1).drop_last() =~= all.take(i as int));
            }
            out.add_roll_values(roll_vals[i].clone(), size as u32);
            i += 1;
        }
        proof {
            assert(all.take(roll_vals.len() as int) =~= all);
        }
        let ghost tallies = tallies_of(out.stats@);
        out.finish();
        proof {
            assert forall|j: int| 0 <= j < out.stats@.len() implies (
            #[trigger] out.stats@[j]).complete() by {
                let key = tallies[j].unit.spec_id();
                lemma_tallied_rolls(all, key);
                lemma_tally_slot(tallies, key);
            }
        }
        out
    }

    /// Counts the totals of one roll, entry by entry. New samples are to be
    /// filled up to `size` values.
    pub fn add_roll_values(&mut self, values: Values, size: u32)
        ensures
            tallies_of(final(self).stats@) == tallied_all(tallies_of(old(self).stats@), values@),
            keeps_sizes(old(self).stats@, final(self).stats@, size),
            distinct_keys(values@),
    {
        let mut i: usize = 0;
        let n = values.len();
        while i < n
            invariant
                i <= n,
                n == values@.len(),
                tallies_of(self.stats@) == tallied_all(
                    tallies_of(old(self).stats@),
                    values@.take(i as int),
                ),
                keeps_sizes(old(self).stats@, self.stats@, size),
            decreases n - i,
        {
            proof {
                assert(values@.take(i + 1).drop_last() =~= values@.take(i as int));
            }
            self.add_value(values.get(i).clone(), size);
            i += 1;
        }
        assert(values@.take(n as int) =~= values@);
    }

    /// Counts `value`: into the sample of its unit, or into a new sample, to
    /// be filled up to `size` values, when its unit has none yet.
    pub fn add_value(&mut self, value: Value, size: u32)
        ensures
            tallies_of(final(self).stats@) == tallied(tallies_of(old(self).stats@), value),
            keeps_sizes(old(self).stats@, final(self).stats@, size),
    {
        let ghost tallies = tallies_of(self.stats@);
        let mut i: usize = 0;
        while i < self.stats.len()
            invariant
                i <= self.stats.len(),
                self.stats@ == old(self).stats@,
                tallies == tallies_of(self.stats@),
                forall|j: int| 0 <= j < i ==> (#[trigger] tallies[j]).unit.spec_id() != value.key(),
            decreases self.stats.len() - i,
        {
            if self.stats[i].has_same_unit(&value.unit) {
                proof {
                    lemma_tally_slot_is(tallies, value.key(), i as int);
                }
                let mut calculator = self.stats.remove(i);
                calculator.add_on_match(value);
                self.stats.insert(i, calculator);
                return ;
            }
            i += 1;
        }
        proof {
            lemma_tally_slot_is(tallies, value.key(), tallies.len() as int);
        }
        self.stats.push(UnitStatsCalculator::new(value, size));
    }

    /// Completes every sample: fills it up with zeros to its size and sorts
    /// it.
    pub fn finish(&mut self)
        ensures
            final(self).stats@.len() == old(self).stats@.len(),
            forall|j: int|
                0 <= j < old(self).stats@.len() ==> (#[trigger] final(self).stats@[j]).unit == old(
                    self,
                ).stats@[j].unit && final(self).stats@[j].size == old(self).stats@[j].size
                    && is_sample(
                    final(self).stats@[j].values@,
                    old(self).stats@[j].values@,
                    old(self).stats@[j].size as nat,
                ),
    {
        let mut i: usize = 0;
        while i < self.stats.len()
            invariant
                i <= self.stats.len(),
                self.stats@.len() == old(self).stats@.len(),
                forall|j: int| i <= j < self.stats@.len() ==> self.stats@[j] == old(self).stats@[j],
                forall|j: int|
                    0 <= j < i ==> (#[trigger] self.stats@[j]).unit == old(self).stats@[j].unit
                        && self.stats@[j].size == old(self).stats@[j].size && is_sample(
                        self.stats@[j].values@,
                        old(self).stats@[j].values@,
                        old(self).stats@[j].size as nat,
                    ),
            decreases self.stats.len() - i,
        {
            let mut calculator = self.stats.remove(i);
            calculator.finish();
            self.stats.insert(i, calculator);
            i += 1;
        }
    }

    /// Counts the figures of every sample.
    pub fn build(self) -> (r: CollectedStats)
        requires
            forall|i: int| 0 <= i < self.stats@.len() ==> (#[trigger] self.stats@[i]).complete(),
        ensures
            r.stats@.len() == self.stats@.len(),
            forall|i: int|
                0 <= i < r.stats@.len() ==> (#[trigger] r.stats@[i]).wf() && r.stats@[i].unit
                    == self.stats@[i].unit && r.stats@[i].values == self.stats@[i].values,
    {
        let mut rest = self.stats;
        let mut stats: Vec<UnitStats> = Vec::with_capacity(rest.len());
        while rest.len() > 0
            invariant
                rest@.len() <= self.stats@.len(),
                rest@ == self.stats@.skip(self.stats@.len() - rest@.len()),
                forall|i: int|
                    0 <= i < self.stats@.len() ==> (#[trigger] self.stats@[i]).complete(),
                stats@.len() == self.stats@.len() - rest@.len(),
                forall|i: int|
                    0 <= i < stats@.len() ==> (#[trigger] stats@[i]).wf() && stats@[i].unit
                        == self.stats@[i].unit && stats@[i].values == self.stats@[i].values,
            decreases rest.len(),
        {
            let calculator = rest.remove(0);
            stats.push(calculator.calc_all());
        }
        CollectedStats { stats }
    }
}

/// The figures of every unit, in the order in which the units first
/// occurred.
#[derive(Debug)]
pub struct CollectedStats {
    pub stats: Vec<UnitStats>,
}

impl CollectedStats {
    /// The figures for `unit`, if there are any.
    pub fn for_unit(&self, unit: &Rc<Unit>) -> (r: Option<&UnitStats>)
        ensures
            match r {
                Some(stats) => exists|i: int|
                    0 <= i < self.stats@.len() && *stats == self.stats@[i] && stats.unit.spec_id()
                        == unit.spec_id() && forall|j: int|
                        0 <= j < i ==> (#[trigger] self.stats@[j]).unit.spec_id() != unit.spec_id(),
                None => forall|j: int|
                    0 <= j < self.stats@.len() ==> (#[trigger] self.stats@[j]).unit.spec_id()
                        != unit.spec_id(),
            },
    {
        let mut i: usize = 0;
        while i < self.stats.len()
            invariant
                i <= self.stats.len(),
                forall|j: int|
                    0 <= j < i ==> (#[trigger] self.stats@[j]).unit.spec_id() != unit.spec_id(),
            decreases self.stats.len() - i,
        {
            if self.stats[i].has_same_unit(unit) {
                return Some(&self.stats[i]);
            }
            i += 1;
        }
        None
    }
}

/// The sums of a list that holds the number `c` only.
pub proof fn lemma_constant_sums(s: Seq<i32>, c: i32)
    requires
        forall|i: int| 0 <= i < s.len() ==> s[i] == c,
    ensures
        int_sum(s) == s.len() * c,
        square_sum(s) == s.len() * (c * c),
        occurrences(s, c) == s.len(),
    decreases s.len(),
{
    if s.len() > 0 {
        let front = s.drop_last();
        lemma_constant_sums(front, c);
        let n = front.len() as int;
        assert((n + 1) * c == n * c + c) by (nonlinear_arith);
        assert((n + 1) * (c * c) == n * (c * c) + c * c) by (nonlinear_arith);
    }
}

/// A list in which `c` occurs as often as the list is long holds `c` only.
pub proof fn lemma_only_occurrence(s: Seq<i32>, c: i32)
    requires
        occurrences(s, c) == s.len(),
    ensures
        forall|i: int| 0 <= i < s.len() ==> s[i] == c,
    decreases s.len(),
{
    if s.len() > 0 {
        let front = s.drop_last();
        lemma_occurrences_bound(front, c);
        lemma_only_occurrence(front, c);
        assert forall|i: int| 0 <= i < s.len() implies s[i] == c by {
            if i < front.len() {
                assert(front[i] == s[i]);
            }
        }
    }
}

/// Where every roll gives the same total `c` for a unit, the sum of the
/// sample is `c` times the number of rolls, so the average is `c`; the median
/// and the mode are `c`; and the variance, with it the standard deviation,
/// is 0.
pub proof fn law_constant_sample(stats: &UnitStats, c: i32)
    requires
        stats.wf(),
        forall|i: int| 0 <= i < stats.values@.len() ==> stats.values@[i] == c,
    ensures
        stats.sum == stats.values@.len() * c,
        stats.median == (c, c),
        stats.mode == c,
        stats.scaled_variance == 0,
{
    let s = stats.values@;
    let n = s.len() as int;
    lemma_constant_sums(s, c);
    if stats.mode != c {
        lemma_occurrences_bound(s, stats.mode);
    }
    assert(n * (n * (c * c)) - (n * c) * (n * c) == 0) by (nonlinear_arith);
}

} // verus!
