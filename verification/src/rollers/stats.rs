//! Statistics: one roller rolled many times, and what the rolls add up to.

pub mod calculate;
pub mod tally;

pub use calculate::{CollectedStats, CollectedStatsBuilder, UnitStats, UnitStatsCalculator};

use vstd::prelude::*;
use std::rc::Rc;
use crate::random::{default_rng, Rng};
use crate::rollers::pool::rolled_times;
use crate::rollers::view::RollView;
use crate::rollers::{lemma_views_of, views_of, SubRoll, SubRoller};
use crate::text::{decimal_digits, natural_text};
use crate::units::Unit;
use crate::value::{distinct_keys, total, Value, Values};
use vstd::string::StringExecFns;
use calculate::{
    is_sample, law_constant_sample, lemma_constant_sums, lemma_only_occurrence,
};
use tally::{
    law_sample_holds_every_total, lemma_tallied_rolls, lemma_tally_slot, samples, tallied_rolls,
    totals_of,
};

verus! {

/// The kinds of figures that the statistics hold for each unit.
#[derive(Clone, Copy, Debug, PartialEq, Eq)]
pub enum StatType {
    Average,
    Median,
    Mode,
    StdDeviation,
}

impl StatType {
    /// The heading of the kind.
    pub open spec fn label(&self) -> Seq<char> {
        match self {
            StatType::Average => "Average"@,
            StatType::Median => "Median"@,
            StatType::Mode => "Mode"@,
            StatType::StdDeviation => "Standard Deviation"@,
        }
    }

    /// The heading of the kind.
    pub fn to_string(&self) -> (s: String)
        ensures
            s@ == self.label(),
    {
        match self {
            StatType::Average => String::from_str("Average"),
            StatType::Median => String::from_str("Median"),
            StatType::Mode => String::from_str("Mode"),
            StatType::StdDeviation => String::from_str("Standard Deviation"),
        }
    }
}

/// The totals of each of `rolls`.
pub open spec fn roll_totals(rolls: Seq<RollView>) -> Seq<Seq<Value>> {
    Seq::new(rolls.len(), |i: int| rolls[i].totals())
}

/// Whether `stats` are the figures of the rolls with the totals `rolls`: one
/// entry for each unit, in the order in which the units first occur; its
/// values are the totals of the unit in every roll (a 0 where a roll has no
/// amount for it), sorted; its figures are those of the values.
pub open spec fn summarizes(stats: Seq<UnitStats>, rolls: Seq<Seq<Value>>) -> bool {
    let tallies = tallied_rolls(Seq::empty(), rolls);
    &&& stats.len() == tallies.len()
    &&& forall|i: int|
        0 <= i < stats.len() ==> (#[trigger] stats[i]).wf() && stats[i].unit == tallies[i].unit
            && is_sample(stats[i].values@, tallies[i].values, rolls.len())
}

/// A roller that rolls another roller a number of times to find, for each
/// unit, the average, the median, the mode and the standard deviation of the
/// totals. The values of every roll are kept, for other statistics.
#[derive(Debug)]
pub struct StatsRoller {
    pub runs: u32,
    pub roller: SubRoller,
}

impl StatsRoller {
    /// Whether the roller can be rolled: the roller inside can, and at least
    /// once.
    pub open spec fn wf(&self) -> bool {
        self.runs > 0 && self.roller.wf()
    }

    /// The description: the roller inside and the number of runs.
    pub open spec fn description_text(&self) -> Seq<char> {
        "Runs '"@ + self.roller.description_text() + "' "@ + decimal_digits(self.runs as nat)
            + " times"@
    }

    /// A handle to the roller that rolls `roller` `num_runs` times.
    pub fn new(roller: SubRoller, num_runs: u32) -> (r: Rc<StatsRoller>)
        requires
            num_runs > 0,
        ensures
            *r == (StatsRoller { runs: num_runs, roller }),
    {
        Rc::new(StatsRoller { runs: num_runs, roller })
    }

    /// Whether the roller can be rolled.
    pub fn can_roll(&self) -> (b: bool)
        ensures
            b == self.wf(),
    {
        self.runs > 0 && self.roller.can_roll()
    }

    /// The description, such as `Runs '2d6' 1000 times`.
    pub fn description(&self) -> (s: String)
        ensures
            s@ == self.description_text(),
    {
        let mut out = String::from_str("Runs '");
        out.append(self.roller.description().as_str());
        out.append("' ");
        out.append(natural_text(self.runs as u64).as_str());
        out.append(" times");
        out
    }

    /// Rolls the roller inside `runs` times on a generator seeded from the
    /// clock and counts the figures.
    pub fn statistics_roll(&self) -> (r: StatisticsRoll)
        requires
            self.wf(),
        ensures
            exists|seed: u64|
                views_of(r.rolls@) == (#[trigger] rolled_times(
                    &self.roller,
                    seed,
                    self.runs as nat,
                )).0,
            r.wf(),
    {
        let mut rng = default_rng();
        self.statistics_roll_with(&mut rng)
    }

    /// Rolls the roller inside `runs` times on `rng` and counts the figures.
    pub fn statistics_roll_with(&self, rng: &mut Rng) -> (r: StatisticsRoll)
        requires
            self.wf(),
        ensures
            (views_of(r.rolls@), final(rng).seed()) == rolled_times(
                &self.roller,
                old(rng).seed(),
                self.runs as nat,
            ),
            r.wf(),
    {
        let mut rolls: Vec<SubRoll> = Vec::new();
        let mut i: u32 = 0;
        while i < self.runs
            invariant
                i <= self.runs,
                self.roller.wf(),
                rolls@.len() == i,
                (views_of(rolls@), rng.seed()) == rolled_times(
                    &self.roller,
                    old(rng).seed(),
                    i as nat,
                ),
            decreases self.runs - i,
        {
            let roll = self.roller.inner_roll_with(rng);
            proof {
                assert(rolls@.push(roll).drop_last() =~= rolls@);
            }
            rolls.push(roll);
            i += 1;
        }
        StatisticsRoll::new(rolls)
    }

    /// Rolls the roller inside `runs` times on `rng` and counts the figures.
    pub fn roll_with(&self, rng: &mut Rng) -> (r: StatisticsRoll)
        requires
            self.wf(),
        ensures
            (views_of(r.rolls@), final(rng).seed()) == rolled_times(
                &self.roller,
                old(rng).seed(),
                self.runs as nat,
            ),
            r.wf(),
    {
        self.statistics_roll_with(rng)
    }
}

/// The rolls of a `StatsRoller` and the figures counted from them.
#[derive(Debug)]
pub struct StatisticsRoll {
    pub rolls: Vec<SubRoll>,
    pub collected_stats: CollectedStats,
}

impl StatisticsRoll {
    /// Whether the figures are those of the rolls.
    pub open spec fn wf(&self) -> bool {
        summarizes(self.collected_stats.stats@, roll_totals(views_of(self.rolls@)))
    }

    /// The trace: how many rolls were made.
    pub open spec fn trace(&self) -> Seq<char> {
        "Result of "@ + decimal_digits(self.rolls@.len()) + " rolls"@
    }

    /// The statistics of `rolls`.
    pub fn new(rolls: Vec<SubRoll>) -> (r: StatisticsRoll)
        requires
            rolls@.len() <= u32::MAX,
        ensures
            r.rolls == rolls,
            r.wf(),
    {
        let collected_stats = Self::run_calcs(&rolls);
        StatisticsRoll { rolls, collected_stats }
    }

    /// Counts the figures of `rolls`.
    pub fn run_calcs(rolls: &Vec<SubRoll>) -> (r: CollectedStats)
        requires
            rolls@.len() <= u32::MAX,
        ensures
            summarizes(r.stats@, roll_totals(views_of(rolls@))),
    {
        let mut roll_vals: Vec<Values> = Vec::with_capacity(rolls.len());
        let mut i: usize = 0;
        proof {
            lemma_views_of(rolls@);
        }
        while i < rolls.len()
            invariant
                i <= rolls.len(),
                roll_vals@.len() == i,
                forall|j: int|
                    0 <= j < i ==> (#[trigger] roll_vals@[j])@ == rolls@[j].view().totals(),
            decreases rolls.len() - i,
        {
            roll_vals.push(rolls[i].totals());
            i += 1;
        }
        proof {
            assert(totals_of(roll_vals@) =~= roll_totals(views_of(rolls@)));
        }
        let builder = CollectedStatsBuilder::new(roll_vals);
        builder.build()
    }

    /// The figures for `unit`, if there are any.
    pub fn stats_for(&self, unit: &Rc<Unit>) -> (r: Option<&UnitStats>)
        ensures
            match r {
                Some(stats) => exists|i: int|
                    0 <= i < self.collected_stats.stats@.len() && *stats
                        == self.collected_stats.stats@[i] && stats.unit.spec_id() == unit.spec_id()
                        && forall|j: int|
                        0 <= j < i ==> (#[trigger] self.collected_stats.stats@[j]).unit.spec_id()
                            != unit.spec_id(),
                None => forall|j: int|
                    0 <= j < self.collected_stats.stats@.len() ==> (
                    #[trigger] self.collected_stats.stats@[j]).unit.spec_id() != unit.spec_id(),
            },
    {
        self.collected_stats.for_unit(unit)
    }

    /// The trace, such as `Result of 1000 rolls`.
    pub fn intermediate_results(&self) -> (s: String)
        ensures
            s@ == self.trace(),
    {
        let mut out = String::from_str("Result of ");
        out.append(natural_text(self.rolls.len() as u64).as_str());
        out.append(" rolls");
        out
    }
}

/// Rolls that all give the same totals have no spread: for every unit the sum
/// is its total times the number of rolls, so that the average is that
/// total; the median and the mode are that total; and the variance, with it
/// the standard deviation, is 0.
pub proof fn law_constant_rolls_have_no_spread(
    stats: Seq<UnitStats>,
    rolls: Seq<Seq<Value>>,
    i: int,
)
    requires
        summarizes(stats, rolls),
        rolls.len() > 0,
        distinct_keys(rolls[0]),
        forall|j: int| 0 <= j < rolls.len() ==> #[trigger] rolls[j] == rolls[0],
        0 <= i < stats.len(),
    ensures
        stats[i].sum == rolls.len() * total(rolls[0], stats[i].unit.spec_id()),
        stats[i].median.0 == total(rolls[0], stats[i].unit.spec_id()),
        stats[i].median.1 == total(rolls[0], stats[i].unit.spec_id()),
        stats[i].mode == total(rolls[0], stats[i].unit.spec_id()),
        stats[i].scaled_variance == 0,
{
    let key = stats[i].unit.spec_id();
    let c = total(rolls[0], key) as i32;
    let tallies = tallied_rolls(Seq::empty(), rolls);
    let sample = stats[i].values@;
    lemma_tallied_rolls(rolls, key);
    lemma_tally_slot(tallies, key);
    assert(tallies[i].unit.spec_id() == key);
    law_sample_holds_every_total(rolls, key, sample, c);
    lemma_constant_sums(samples(rolls, key), c);
    lemma_only_occurrence(sample, c);
    law_constant_sample(&stats[i], c);
}

} // verus!
