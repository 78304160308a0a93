//! Pools: one roller rolled several times, with the option to drop the
//! lowest or the highest results.

use vstd::prelude::*;
use std::rc::Rc;
use crate::dice::Die;
use crate::random::{seed_after, Rng};
use crate::rollers::die::die_rolled;
use crate::rollers::view::RollView;
use crate::rollers::order::{
    compare_totals, compared, lemma_stable_sorted, lower, ordered, sort_rolls, stable_sorted,
    Comparison,
};
use crate::rollers::{
    add_up, die_views_of, inner_results, lemma_views_of, lemma_views_of_are, rolled_faces_of,
    views_of, DieRoll, SubRoll, SubRoller,
};
use crate::text::{decimal_digits, join, natural_text, wrapped};
use crate::units::Unit;
use crate::value::Values;
use vstd::string::StringExecFns;

verus! {

/// What a pool does with its rolls: keep them all, or drop the lowest or the
/// highest `count` of them, ordered by the units of `order_by`.
#[derive(Debug)]
pub enum Strategy {
    DropLowest { count: u8, order_by: Vec<Rc<Unit>> },
    DropHighest { count: u8, order_by: Vec<Rc<Unit>> },
    KeepAll,
}

impl Strategy {
    /// How many rolls are dropped.
    pub open spec fn spec_count(&self) -> u8 {
        match self {
            Strategy::DropLowest { count, .. } => *count,
            Strategy::DropHighest { count, .. } => *count,
            Strategy::KeepAll => 0,
        }
    }

    /// The units by which rolls are ordered.
    pub open spec fn order(&self) -> Seq<Rc<Unit>> {
        match self {
            Strategy::DropLowest { order_by, .. } => order_by@,
            Strategy::DropHighest { order_by, .. } => order_by@,
            Strategy::KeepAll => Seq::empty(),
        }
    }

    /// What the strategy adds to the description of a pool.
    pub open spec fn descriptor_text(&self) -> Seq<char> {
        match self {
            Strategy::KeepAll => Seq::empty(),
            Strategy::DropLowest { count, .. } => if *count == 1 {
                " drop lowest"@
            } else {
                " drop lowest "@ + decimal_digits(*count as nat)
            },
            Strategy::DropHighest { count, .. } => if *count == 1 {
                " drop highest"@
            } else {
                " drop highest "@ + decimal_digits(*count as nat)
            },
        }
    }

    /// The pool roll that the strategy makes of `rolls`. To drop, the rolls
    /// are sorted from low to high, ties in the order rolled; the lowest are
    /// the first `count` of them, the highest the last `count`.
    pub open spec fn selected(&self, rolls: Seq<RollView>) -> RollView {
        match self {
            Strategy::KeepAll => RollView::Pool { kept: rolls, dropped: Seq::empty() },
            Strategy::DropLowest { count, order_by } => {
                let sorted = stable_sorted(rolls, order_by@);
                RollView::Pool {
                    kept: sorted.subrange(*count as int, sorted.len() as int),
                    dropped: sorted.subrange(0, *count as int),
                }
            },
            Strategy::DropHighest { count, order_by } => {
                let sorted = stable_sorted(rolls, order_by@);
                let cut = sorted.len() - *count;
                RollView::Pool {
                    kept: sorted.subrange(0, cut),
                    dropped: sorted.subrange(cut, sorted.len() as int),
                }
            },
        }
    }

    /// How many rolls are dropped.
    pub fn count(&self) -> (n: u8)
        ensures
            n == self.spec_count(),
    {
        match self {
            Strategy::DropLowest { count, .. } => *count,
            Strategy::DropHighest { count, .. } => *count,
            Strategy::KeepAll => 0,
        }
    }

    /// Whether nothing is dropped.
    pub fn is_simple(&self) -> (b: bool)
        ensures
            b == (self is KeepAll),
    {
        match self {
            Strategy::KeepAll => true,
            _ => false,
        }
    }

    /// Compares two rolls by their totals for the units of the strategy, in
    /// turn; a roll without an amount for a unit counts as `ABSENT_TOTAL`
    /// there.
    pub fn order_comparator(&self, roll1: &SubRoll, roll2: &SubRoll) -> (c: Comparison)
        ensures
            c == compared(roll1.view().totals(), roll2.view().totals(), self.order()),
    {
        match self {
            Strategy::KeepAll => Comparison::Equal,
            Strategy::DropLowest { order_by, .. } => compare_totals(
                order_by,
                &roll1.totals(),
                &roll2.totals(),
            ),
            Strategy::DropHighest { order_by, .. } => compare_totals(
                order_by,
                &roll1.totals(),
                &roll2.totals(),
            ),
        }
    }

    /// What the strategy adds to the description of a pool.
    pub fn descriptor(&self) -> (s: String)
        ensures
            s@ == self.descriptor_text(),
    {
        match self {
            Strategy::KeepAll => String::new(),
            Strategy::DropLowest { count, .. } => if *count == 1 {
                String::from_str(" drop lowest")
            } else {
                let mut out = String::from_str(" drop lowest ");
                out.append(natural_text(*count as u64).as_str());
                out
            },
            Strategy::DropHighest { count, .. } => if *count == 1 {
                String::from_str(" drop highest")
            } else {
                let mut out = String::from_str(" drop highest ");
                out.append(natural_text(*count as u64).as_str());
                out
            },
        }
    }

    /// Sorts `rolls` as the strategy asks and parts them into the rolls that
    /// count and the rolls that are dropped.
    pub fn select(&self, rolls: Vec<SubRoll>) -> (r: PoolRoll)
        requires
            self.spec_count() <= rolls@.len(),
        ensures
            r.view() == self.selected(views_of(rolls@)),
    {
        match self {
            Strategy::KeepAll => {
                let dropped: Vec<SubRoll> = Vec::new();
                PoolRoll::new(rolls, dropped)
            },
            Strategy::DropLowest { count, order_by } => {
                let cut_idx = *count as usize;
                let mut sorted = sort_rolls(rolls, order_by);
                let ghost whole = sorted@;
                proof {
                    lemma_views_of(whole);
                }
                let kept = sorted.split_off(cut_idx);
                proof {
                    let views = views_of(whole);
                    lemma_views_of_are(kept@, views.subrange(cut_idx as int, views.len() as int));
                    lemma_views_of_are(sorted@, views.subrange(0, cut_idx as int));
                }
                PoolRoll::new(kept, sorted)
            },
            Strategy::DropHighest { count, order_by } => {
                let cut_idx = rolls.len() - (*count as usize);
                let mut sorted = sort_rolls(rolls, order_by);
                let ghost whole = sorted@;
                proof {
                    lemma_views_of(whole);
                }
                let dropped = sorted.split_off(cut_idx);
                proof {
                    let views = views_of(whole);
                    lemma_views_of_are(
                        dropped@,
                        views.subrange(cut_idx as int, views.len() as int),
                    );
                    lemma_views_of_are(sorted@, views.subrange(0, cut_idx as int));
                }
                PoolRoll::new(sorted, dropped)
            },
        }
    }
}

/// The result of rolling a pool: the rolls that count and the rolls that were
/// dropped.
#[derive(Debug)]
pub struct PoolRoll {
    pub kept_rolls: Vec<SubRoll>,
    pub dropped_rolls: Vec<SubRoll>,
}

impl PoolRoll {
    /// The model of the roll.
    pub open spec fn view(&self) -> RollView {
        RollView::Pool { kept: views_of(self.kept_rolls@), dropped: views_of(self.dropped_rolls@) }
    }

    /// The pool roll with these kept and dropped rolls.
    pub fn new(kept_rolls: Vec<SubRoll>, dropped_rolls: Vec<SubRoll>) -> (r: PoolRoll)
        ensures
            r.kept_rolls == kept_rolls,
            r.dropped_rolls == dropped_rolls,
    {
        PoolRoll { kept_rolls, dropped_rolls }
    }

    /// The traces of `rolls`, each in round brackets unless it is simple,
    /// with `separator` between them.
    pub fn build_intermediate_results_part(rolls: &Vec<SubRoll>, separator: &str) -> (s: String)
        ensures
            s@ == crate::text::joined(
                crate::rollers::view::inner_traces(views_of(rolls@)),
                separator@,
            ),
        decreases rolls, 1nat,
    {
        let parts = inner_results(rolls);
        join(&parts, separator)
    }

    /// The trace: the kept rolls joined by ` + `; if any roll was dropped, the
    /// dropped rolls follow in square brackets.
    pub fn intermediate_results(&self) -> (s: String)
        ensures
            s@ == self.view().trace(),
        decreases self,
    {
        if self.is_simple() {
            Self::build_intermediate_results_part(&self.kept_rolls, " + ")
        } else {
            let mut out = Self::build_intermediate_results_part(&self.kept_rolls, " + ");
            out.append(", [dropped: ");
            out.append(Self::build_intermediate_results_part(&self.dropped_rolls, ", ").as_str());
            out.append("]");
            out
        }
    }

    /// The final result: the listing of the totals.
    pub fn final_result(&self) -> (s: String)
        ensures
            s@ == self.view().final_text(),
    {
        self.totals().to_string()
    }

    /// A pool roll is simple when nothing was dropped.
    pub fn is_simple(&self) -> (b: bool)
        ensures
            b == (self.dropped_rolls@.len() == 0),
            b == self.view().is_simple(),
    {
        self.dropped_rolls.len() == 0
    }

    /// The single dice of the kept rolls.
    pub fn rolled_faces(&self) -> (v: Vec<DieRoll>)
        ensures
            die_views_of(v@) == self.view().leaves(),
        decreases self,
    {
        rolled_faces_of(&self.kept_rolls)
    }

    /// The totals of the kept rolls.
    pub fn totals(&self) -> (v: Values)
        ensures
            v@ == self.view().totals(),
        decreases self,
    {
        add_up(Values::new(), &self.kept_rolls)
    }
}

/// What `count` rolls of `roller` in a row give when the stream stands at
/// `seed`, and where the stream stands afterwards.
pub open spec fn rolled_times(roller: &SubRoller, seed: u64, count: nat) -> (Seq<RollView>, u64)
    decreases roller, 1 + count,
{
    if count == 0 {
        (Seq::empty(), seed)
    } else {
        let (front, middle) = rolled_times(roller, seed, (count - 1) as nat);
        let (roll, after) = roller.rolled(middle);
        (front.push(roll), after)
    }
}

/// A pool: one roller rolled `count` times and the results added up, with
/// the option to drop some of the lowest or of the highest results first.
///
/// The roller need not be a die. "4d6 drop lowest" is a pool; so is an attack
/// made twice of which the better counts.
#[derive(Debug)]
pub struct PoolRoller {
    pub count: u8,
    pub die: SubRoller,
    pub strategy: Strategy,
}

impl PoolRoller {
    /// Whether the pool can be rolled: its roller can, and where it drops
    /// rolls it keeps at least one.
    pub open spec fn wf(&self) -> bool
        decreases self,
    {
        &&& self.die.wf()
        &&& self.strategy is KeepAll || self.strategy.spec_count() < self.count
    }

    /// Whether the description can stand inside another without brackets:
    /// the roller is simple and nothing is dropped.
    pub open spec fn spec_is_simple(&self) -> bool
        decreases self,
    {
        self.die.spec_is_simple() && self.strategy is KeepAll
    }

    /// The description: the count, the roller (in round brackets unless it is
    /// a die) and what is dropped.
    pub open spec fn description_text(&self) -> Seq<char>
        decreases self,
    {
        decimal_digits(self.count as nat) + wrapped(
            self.die.description_text(),
            self.die.spec_is_die(),
        ) + self.strategy.descriptor_text()
    }

    /// What rolling the pool gives when the stream stands at `seed`, and
    /// where the stream stands afterwards.
    pub open spec fn rolled(&self, seed: u64) -> (RollView, u64)
        decreases self, 0nat,
    {
        let (rolls, after) = rolled_times(&self.die, seed, self.count as nat);
        (self.strategy.selected(rolls), after)
    }

    /// A handle to the pool of `count` rolls of `die` under `strategy`, unless
    /// the strategy would drop every roll.
    pub fn new(die: SubRoller, count: u8, strategy: Strategy) -> (r: Option<Rc<PoolRoller>>)
        ensures
            strategy.spec_count() >= count ==> r is None,
            strategy.spec_count() < count ==> r is Some && *r->0 == (PoolRoller {
                count,
                die,
                strategy,
            }),
    {
        if strategy.count() >= count {
            None
        } else {
            Some(Rc::new(PoolRoller { count, die, strategy }))
        }
    }

    /// A handle to the pool of `count` rolls of `die` that keeps them all.
    pub fn basic(die: SubRoller, count: u8) -> (r: Rc<PoolRoller>)
        ensures
            *r == (PoolRoller { count, die, strategy: Strategy::KeepAll }),
    {
        Rc::new(PoolRoller { count, die, strategy: Strategy::KeepAll })
    }

    /// A handle to the pool that rolls `die` twice and drops the lower roll.
    pub fn better_of(die: SubRoller, order_by: Vec<Rc<Unit>>) -> (r: Rc<PoolRoller>)
        ensures
            *r == (PoolRoller {
                count: 2,
                die,
                strategy: Strategy::DropLowest { count: 1, order_by },
            }),
    {
        Rc::new(PoolRoller { count: 2, die, strategy: Strategy::DropLowest { count: 1, order_by } })
    }

    /// Whether the pool can be rolled.
    pub fn can_roll(&self) -> (b: bool)
        ensures
            b == self.wf(),
        decreases self,
    {
        self.die.can_roll() && (self.strategy.is_simple() || self.strategy.count() < self.count)
    }

    /// The description of the pool, such as `4d6 drop lowest`.
    pub fn description(&self) -> (s: String)
        ensures
            s@ == self.description_text(),
        decreases self, 0nat,
    {
        let mut out = natural_text(self.count as u64);
        out.append(
            crate::text::wrapped_text(self.die.description().as_str(), self.die.is_die()).as_str(),
        );
        out.append(self.strategy.descriptor().as_str());
        out
    }

    /// Whether the description can stand inside another without brackets.
    pub fn is_simple(&self) -> (b: bool)
        ensures
            b == self.spec_is_simple(),
        decreases self,
    {
        self.die.is_simple() && self.strategy.is_simple()
    }

    /// A pool is not a die.
    pub fn is_die(&self) -> (b: bool)
        ensures
            !b,
    {
        false
    }

    /// The description as it stands inside another description.
    pub fn inner_description(&self) -> (s: String)
        ensures
            s@ == wrapped(self.description_text(), self.spec_is_simple()),
        decreases self, 1nat,
    {
        crate::text::wrapped_text(self.description().as_str(), self.is_simple())
    }

    /// Rolls the roller of the pool `count` times on `rng`.
    pub fn roll_all(&self, rng: &mut Rng) -> (rolls: Vec<SubRoll>)
        requires
            self.die.wf(),
        ensures
            (views_of(rolls@), final(rng).seed()) == rolled_times(
                &self.die,
                old(rng).seed(),
                self.count as nat,
            ),
            rolls@.len() == self.count,
        decreases self, 0nat,
    {
        let mut rolls: Vec<SubRoll> = Vec::with_capacity(self.count as usize);
        let mut i: u8 = 0;
        while i < self.count
            invariant
                i <= self.count,
                self.die.wf(),
                rolls@.len() == i,
                (views_of(rolls@), rng.seed()) == rolled_times(
                    &self.die,
                    old(rng).seed(),
                    i as nat,
                ),
            decreases self.count - i,
        {
            let roll = self.die.inner_roll_with(rng);
            proof {
                assert(rolls@.push(roll).drop_last() =~= rolls@);
            }
            rolls.push(roll);
            i += 1;
        }
        rolls
    }

    /// Rolls the pool: every roll draws from `rng` in turn, then the strategy
    /// parts the rolls into kept and dropped.
    pub fn inner_roll_with(&self, rng: &mut Rng) -> (r: SubRoll)
        requires
            self.wf(),
        ensures
            (r.view(), final(rng).seed()) == self.rolled(old(rng).seed()),
        decreases self, 1nat,
    {
        let rolls = self.roll_all(rng);
        SubRoll::Pool(self.strategy.select(rolls))
    }
}

/// A strategy parts the rolls and changes nothing else: every roll is kept or
/// dropped, as often as it was rolled; as many rolls are dropped as the
/// strategy says.
pub proof fn law_selection_parts_the_rolls(strategy: &Strategy, rolls: Seq<RollView>)
    requires
        strategy.spec_count() <= rolls.len(),
    ensures
        strategy.selected(rolls) matches RollView::Pool { kept, dropped } && dropped.len()
            == strategy.spec_count() && kept.len() + dropped.len() == rolls.len()
            && kept.to_multiset().add(dropped.to_multiset()) == rolls.to_multiset(),
{
    broadcast use vstd::seq_lib::group_to_multiset_ensures;

    match strategy {
        Strategy::KeepAll => {
            assert(rolls.to_multiset().add(vstd::multiset::Multiset::empty())
                =~= rolls.to_multiset());
        },
        Strategy::DropLowest { count, order_by } => {
            let count = *count;
            let sorted = stable_sorted(rolls, order_by@);
            lemma_stable_sorted(rolls, order_by@);
            let dropped = sorted.subrange(0, count as int);
            let kept = sorted.subrange(count as int, sorted.len() as int);
            assert(dropped + kept =~= sorted);
            vstd::seq_lib::lemma_multiset_commutative(dropped, kept);
            assert(kept.to_multiset().add(dropped.to_multiset()) =~= dropped.to_multiset().add(
                kept.to_multiset(),
            ));
        },
        Strategy::DropHighest { count, order_by } => {
            let count = *count;
            let sorted = stable_sorted(rolls, order_by@);
            lemma_stable_sorted(rolls, order_by@);
            let cut = sorted.len() - count;
            let kept = sorted.subrange(0, cut);
            let dropped = sorted.subrange(cut, sorted.len() as int);
            assert(kept + dropped =~= sorted);
            vstd::seq_lib::lemma_multiset_commutative(kept, dropped);
        },
    }
}

/// What is dropped is lowest, or highest: with "drop lowest" no kept roll
/// comes before a dropped roll in the ordering, with "drop highest" no
/// dropped roll comes before a kept one; and the kept rolls ascend.
pub proof fn law_dropped_rolls_are_the_extremes(strategy: &Strategy, rolls: Seq<RollView>)
    requires
        strategy.spec_count() <= rolls.len(),
    ensures
        match strategy.selected(rolls) {
            RollView::Pool { kept, dropped } => match strategy {
                Strategy::KeepAll => kept == rolls,
                Strategy::DropLowest { order_by, .. } => ordered(kept, order_by@) && forall|
                    i: int,
                    j: int,
                |
                    0 <= i < dropped.len() && 0 <= j < kept.len() ==> !lower(
                        (#[trigger] kept[j]).totals(),
                        (#[trigger] dropped[i]).totals(),
                        order_by@,
                    ),
                Strategy::DropHighest { order_by, .. } => ordered(kept, order_by@) && forall|
                    i: int,
                    j: int,
                |
                    0 <= i < dropped.len() && 0 <= j < kept.len() ==> !lower(
                        (#[trigger] dropped[i]).totals(),
                        (#[trigger] kept[j]).totals(),
                        order_by@,
                    ),
            },
            _ => false,
        },
{
    match strategy {
        Strategy::KeepAll => {},
        Strategy::DropLowest { count, order_by } => {
            let count = *count;
            let sorted = stable_sorted(rolls, order_by@);
            lemma_stable_sorted(rolls, order_by@);
            let dropped = sorted.subrange(0, count as int);
            let kept = sorted.subrange(count as int, sorted.len() as int);
            assert forall|i: int, j: int| 0 <= i < j < kept.len() implies !lower(
                (#[trigger] kept[j]).totals(),
                (#[trigger] kept[i]).totals(),
                order_by@,
            ) by {}
            assert forall|i: int, j: int|
                0 <= i < dropped.len() && 0 <= j < kept.len() implies !lower(
                (#[trigger] kept[j]).totals(),
                (#[trigger] dropped[i]).totals(),
                order_by@,
            ) by {}
        },
        Strategy::DropHighest { count, order_by } => {
            let count = *count;
            let sorted = stable_sorted(rolls, order_by@);
            lemma_stable_sorted(rolls, order_by@);
            let cut = sorted.len() - count;
            let kept = sorted.subrange(0, cut);
            let dropped = sorted.subrange(cut, sorted.len() as int);
            assert forall|i: int, j: int| 0 <= i < j < kept.len() implies !lower(
                (#[trigger] kept[j]).totals(),
                (#[trigger] kept[i]).totals(),
                order_by@,
            ) by {}
            assert forall|i: int, j: int|
                0 <= i < dropped.len() && 0 <= j < kept.len() implies !lower(
                (#[trigger] dropped[i]).totals(),
                (#[trigger] kept[j]).totals(),
                order_by@,
            ) by {}
        },
    }
}

/// The rolls of a pool come from one stream: a pool of a die that does not
/// explode takes one number for each roll, each roll shows the face that the
/// stream picks where the roll before it left off, and the stream ends up as
/// many numbers further as there were rolls.
pub proof fn law_pool_draws_once_for_each_roll(die: &Rc<Die>, seed: u64, count: nat)
    requires
        die.explode_on is None,
    ensures
        rolled_times(&SubRoller::Die(*die), seed, count).0.len() == count,
        rolled_times(&SubRoller::Die(*die), seed, count).1 == seed_after(seed, count),
        forall|i: int|
            0 <= i < count ==> (#[trigger] rolled_times(&SubRoller::Die(*die), seed, count).0[i])
                == (RollView::Die {
                die: die.name@,
                face: die.face_at(seed_after(seed, i as nat)).label@,
                values: die.face_at(seed_after(seed, i as nat)).values@,
            }),
    decreases count,
{
    if count > 0 {
        let roller = SubRoller::Die(*die);
        let before = rolled_times(&roller, seed, (count - 1) as nat);
        law_pool_draws_once_for_each_roll(die, seed, (count - 1) as nat);
        assert(roller.rolled(before.1) == die_rolled(&**die, before.1, die.explosion_depth as nat));
    }
}

} // verus!
