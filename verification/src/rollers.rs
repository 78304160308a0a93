//! Rollers say what to roll; rolls are what came of it.
//!
//! A `SubRoller` gives one result that can be combined with others, so it can
//! stand inside another roller: a die, a pool, a chain of additions and
//! subtractions, a roller with a modifier, a constant. Rolling it gives a
//! `SubRoll`, which shows what was rolled and adds up to one set of totals.

pub mod builder;
pub mod die;
pub mod math;
pub mod modifier;
pub mod multi;
pub mod order;
pub mod pool;
pub mod stats;
pub mod value;
pub mod view;

pub use builder::Builder;
pub use die::{DieRoll, ExplodedRoll};
pub use math::{MathRoll, MathRoller, RollMathType, RollerMathType};
pub use modifier::{ModifierRoll, ModifierRoller};
pub use multi::{MultiRoll, MultiRoller, NamedRoll, NamedRoller, TopRollView};
pub use order::Comparison;
pub use pool::{PoolRoll, PoolRoller, Strategy};
pub use stats::{
    CollectedStats, CollectedStatsBuilder, StatType, StatisticsRoll, StatsRoller, UnitStats,
    UnitStatsCalculator,
};
pub use value::{ValueRoll, ValueRoller};
pub use view::{MathOp, RollView, TermView};

use vstd::prelude::*;
use std::rc::Rc;
use crate::dice::Die;
use crate::random::{default_rng, Rng};
use crate::name::Name;
use crate::text::{wrapped, wrapped_text};
use crate::value::Values;

verus! {

/// A roller that gives one result, so that it can stand inside another
/// roller.
#[derive(Debug)]
pub enum SubRoller {
    /// One die.
    Die(Rc<Die>),
    /// The same roller several times.
    Pool(Rc<PoolRoller>),
    /// A chain of additions and subtractions.
    Math(Rc<MathRoller>),
    /// A roller with a constant added.
    Modifier(Rc<ModifierRoller>),
    /// A constant.
    Value(Rc<ValueRoller>),
}

impl Clone for SubRoller {
    fn clone(&self) -> (r: Self)
        ensures
            r == *self,
    {
        match self {
            SubRoller::Die(d) => SubRoller::Die(crate::share::share(d)),
            SubRoller::Pool(p) => SubRoller::Pool(crate::share::share(p)),
            SubRoller::Math(m) => SubRoller::Math(crate::share::share(m)),
            SubRoller::Modifier(m) => SubRoller::Modifier(crate::share::share(m)),
            SubRoller::Value(v) => SubRoller::Value(crate::share::share(v)),
        }
    }
}

impl SubRoller {
    /// Whether the roller can be rolled: every die in it has a face, every
    /// pool that drops rolls keeps one, every chain starts with its first
    /// term.
    pub open spec fn wf(&self) -> bool
        decreases self,
    {
        match self {
            SubRoller::Die(d) => d.wf(),
            SubRoller::Pool(p) => p.wf(),
            SubRoller::Math(m) => m.wf(),
            SubRoller::Modifier(m) => m.wf(),
            SubRoller::Value(_) => true,
        }
    }

    /// Whether the description can stand inside another description without
    /// brackets.
    pub open spec fn spec_is_simple(&self) -> bool
        decreases self,
    {
        match self {
            SubRoller::Die(_) => true,
            SubRoller::Pool(p) => p.spec_is_simple(),
            SubRoller::Math(_) => false,
            SubRoller::Modifier(m) => m.spec_is_simple(),
            SubRoller::Value(v) => v.name is Some,
        }
    }

    /// Whether the roller is a single die.
    pub open spec fn spec_is_die(&self) -> bool {
        self is Die
    }

    /// The description of the roller, such as `2d6 + 3`.
    pub open spec fn description_text(&self) -> Seq<char>
        decreases self, 0nat,
    {
        match self {
            SubRoller::Die(d) => d.name@,
            SubRoller::Pool(p) => p.description_text(),
            SubRoller::Math(m) => m.description_text(),
            SubRoller::Modifier(m) => m.description_text(),
            SubRoller::Value(v) => v.description_text(),
        }
    }

    /// The description as it stands inside another description: in round
    /// brackets unless the roller is simple.
    pub open spec fn inner_description_text(&self) -> Seq<char>
        decreases self, 1nat,
    {
        wrapped(self.description_text(), self.spec_is_simple())
    }

    /// What rolling gives when the stream stands at `seed`, and where the
    /// stream stands afterwards. Rollers inside are rolled from left to
    /// right, each from where the one before it left the stream.
    pub open spec fn rolled(&self, seed: u64) -> (RollView, u64)
        decreases self, 0nat,
    {
        match self {
            SubRoller::Die(d) => die::die_rolled(&**d, seed, d.explosion_depth as nat),
            SubRoller::Pool(p) => p.rolled(seed),
            SubRoller::Math(m) => m.rolled(seed),
            SubRoller::Modifier(m) => m.rolled(seed),
            SubRoller::Value(v) => (v.rolled(), seed),
        }
    }

    /// Whether the roller can be rolled.
    pub fn can_roll(&self) -> (b: bool)
        ensures
            b == self.wf(),
        decreases self,
    {
        match self {
            SubRoller::Die(d) => d.can_roll(),
            SubRoller::Pool(p) => p.can_roll(),
            SubRoller::Math(m) => m.can_roll(),
            SubRoller::Modifier(m) => m.can_roll(),
            SubRoller::Value(_) => true,
        }
    }

    /// Whether the description can stand inside another description without
    /// brackets.
    pub fn is_simple(&self) -> (b: bool)
        ensures
            b == self.spec_is_simple(),
        decreases self,
    {
        match self {
            SubRoller::Die(d) => d.is_simple(),
            SubRoller::Pool(p) => p.is_simple(),
            SubRoller::Math(m) => m.is_simple(),
            SubRoller::Modifier(m) => m.is_simple(),
            SubRoller::Value(v) => v.is_simple(),
        }
    }

    /// Whether the roller is a single die.
    pub fn is_die(&self) -> (b: bool)
        ensures
            b == self.spec_is_die(),
    {
        match self {
            SubRoller::Die(d) => d.is_die(),
            SubRoller::Pool(p) => p.is_die(),
            SubRoller::Math(m) => m.is_die(),
            SubRoller::Modifier(m) => m.is_die(),
            SubRoller::Value(v) => v.is_die(),
        }
    }

    /// The description of the roller, such as `2d6 + 3`.
    pub fn description(&self) -> (s: String)
        ensures
            s@ == self.description_text(),
        decreases self, 0nat,
    {
        match self {
            SubRoller::Die(d) => d.description(),
            SubRoller::Pool(p) => p.description(),
            SubRoller::Math(m) => m.description(),
            SubRoller::Modifier(m) => m.description(),
            SubRoller::Value(v) => v.description(),
        }
    }

    /// The description as it stands inside another description: in round
    /// brackets unless the roller is simple.
    pub fn inner_description(&self) -> (s: String)
        ensures
            s@ == self.inner_description_text(),
        decreases self, 1nat,
    {
        wrapped_text(self.description().as_str(), self.is_simple())
    }

    /// Rolls on `rng` and gives the roll.
    pub fn inner_roll_with(&self, rng: &mut Rng) -> (r: SubRoll)
        requires
            self.wf(),
        ensures
            (r.view(), final(rng).seed()) == self.rolled(old(rng).seed()),
        decreases self, 0nat,
    {
        match self {
            SubRoller::Die(d) => Die::inner_roll_with(d, rng),
            SubRoller::Pool(p) => p.inner_roll_with(rng),
            SubRoller::Math(m) => m.inner_roll_with(rng),
            SubRoller::Modifier(m) => m.inner_roll_with(rng),
            SubRoller::Value(v) => v.inner_roll_with(rng),
        }
    }
}

/// A roll that adds up to one set of totals.
#[derive(Debug)]
pub enum SubRoll {
    /// One die came up with one face.
    Die(DieRoll),
    /// A die exploded.
    Exploded(ExplodedRoll),
    /// A pool was rolled.
    Pool(PoolRoll),
    /// A chain of additions and subtractions was rolled.
    Math(MathRoll),
    /// A roll had a constant added.
    Modifier(ModifierRoll),
    /// A constant.
    Value(ValueRoll),
}

/// The models of `rolls`.
pub open spec fn views_of(rolls: Seq<SubRoll>) -> Seq<RollView>
    decreases rolls,
{
    if rolls.len() == 0 {
        Seq::empty()
    } else {
        views_of(rolls.drop_last()).push(rolls.last().view())
    }
}

/// The models of `terms`.
pub open spec fn term_views_of(terms: Seq<RollMathType>) -> Seq<TermView>
    decreases terms,
{
    if terms.len() == 0 {
        Seq::empty()
    } else {
        term_views_of(terms.drop_last()).push(terms.last().view())
    }
}

/// The models of the single dice `rolls`.
pub open spec fn die_views_of(rolls: Seq<DieRoll>) -> Seq<RollView> {
    rolls.map_values(|r: DieRoll| r.view())
}

/// The models of a list are the models of its rolls, place by place.
pub proof fn lemma_views_of(rolls: Seq<SubRoll>)
    ensures
        views_of(rolls).len() == rolls.len(),
        forall|i: int| 0 <= i < rolls.len() ==> (#[trigger] views_of(rolls)[i]) == rolls[i].view(),
    decreases rolls.len(),
{
    if rolls.len() > 0 {
        lemma_views_of(rolls.drop_last());
    }
}

/// A list of models that holds, place by place, the models of `rolls` is the
/// list of their models.
pub proof fn lemma_views_of_are(rolls: Seq<SubRoll>, views: Seq<RollView>)
    requires
        views.len() == rolls.len(),
        forall|i: int| 0 <= i < rolls.len() ==> (#[trigger] views[i]) == rolls[i].view(),
    ensures
        views_of(rolls) == views,
{
    lemma_views_of(rolls);
}

/// The models of a list are the models of its terms, place by place.
pub proof fn lemma_term_views_of(terms: Seq<RollMathType>)
    ensures
        term_views_of(terms).len() == terms.len(),
        forall|i: int|
            0 <= i < terms.len() ==> (#[trigger] term_views_of(terms)[i]) == terms[i].view(),
    decreases terms.len(),
{
    if terms.len() > 0 {
        lemma_term_views_of(terms.drop_last());
    }
}

impl SubRoll {
    /// The model of the roll.
    pub open spec fn view(&self) -> RollView
        decreases self,
    {
        match self {
            SubRoll::Die(r) => r.view(),
            SubRoll::Exploded(r) => RollView::Exploded {
                trigger: Box::new(r.triggering_roll.view()),
                triggered: views_of(r.triggered_rolls@),
            },
            SubRoll::Pool(r) => RollView::Pool {
                kept: views_of(r.kept_rolls@),
                dropped: views_of(r.dropped_rolls@),
            },
            SubRoll::Math(r) => RollView::Math { terms: term_views_of(r.inner@) },
            SubRoll::Modifier(r) => RollView::Modifier {
                inner: Box::new(r.inner_result.view()),
                modifier: r.modifier,
            },
            SubRoll::Value(r) => r.view(),
        }
    }

    /// Whether the trace can stand inside another trace without brackets.
    pub fn is_simple(&self) -> (b: bool)
        ensures
            b == self.view().is_simple(),
    {
        match self {
            SubRoll::Die(r) => r.is_simple(),
            SubRoll::Exploded(r) => r.is_simple(),
            SubRoll::Pool(r) => r.is_simple(),
            SubRoll::Math(r) => r.is_simple(),
            SubRoll::Modifier(r) => r.is_simple(),
            SubRoll::Value(r) => r.is_simple(),
        }
    }

    /// The totals of the roll.
    pub fn totals(&self) -> (v: Values)
        ensures
            v@ == self.view().totals(),
        decreases self,
    {
        match self {
            SubRoll::Die(r) => r.totals(),
            SubRoll::Exploded(r) => r.totals(),
            SubRoll::Pool(r) => r.totals(),
            SubRoll::Math(r) => r.totals(),
            SubRoll::Modifier(r) => r.totals(),
            SubRoll::Value(r) => r.totals(),
        }
    }

    /// The trace of the roll: every die that was rolled and how the rolls
    /// were combined.
    pub fn intermediate_results(&self) -> (s: String)
        ensures
            s@ == self.view().trace(),
        decreases self, 0nat,
    {
        match self {
            SubRoll::Die(r) => r.intermediate_results(),
            SubRoll::Exploded(r) => r.intermediate_results(),
            SubRoll::Pool(r) => r.intermediate_results(),
            SubRoll::Math(r) => r.intermediate_results(),
            SubRoll::Modifier(r) => r.intermediate_results(),
            SubRoll::Value(r) => r.intermediate_results(),
        }
    }

    /// The trace as it stands inside another trace: in round brackets unless
    /// the roll is simple.
    pub fn inner_intermediate_results(&self) -> (s: String)
        ensures
            s@ == self.view().inner_trace(),
        decreases self, 1nat,
    {
        wrapped_text(self.intermediate_results().as_str(), self.is_simple())
    }

    /// The final result: the listing of the totals.
    pub fn final_result(&self) -> (s: String)
        ensures
            s@ == self.view().final_text(),
    {
        match self {
            SubRoll::Value(r) => r.final_result(),
            _ => self.totals().to_string(),
        }
    }

    /// The single dice that were rolled and count, in the order of the trace.
    pub fn rolled_faces(&self) -> (v: Vec<DieRoll>)
        ensures
            die_views_of(v@) == self.view().leaves(),
        decreases self,
    {
        match self {
            SubRoll::Die(r) => r.rolled_faces(),
            SubRoll::Exploded(r) => r.rolled_faces(),
            SubRoll::Pool(r) => r.rolled_faces(),
            SubRoll::Math(r) => r.rolled_faces(),
            SubRoll::Modifier(r) => r.rolled_faces(),
            SubRoll::Value(r) => r.rolled_faces(),
        }
    }
}

/// The totals of `start` and of each of `rolls`, added in their order.
pub fn add_up(start: Values, rolls: &Vec<SubRoll>) -> (v: Values)
    ensures
        v@ == view::sum_totals(start@, views_of(rolls@)),
    decreases rolls,
{
    let mut out = start;
    let mut i: usize = 0;
    proof {
        lemma_views_of(rolls@);
    }
    while i < rolls.len()
        invariant
            i <= rolls.len(),
            views_of(rolls@).len() == rolls.len(),
            forall|j: int|
                0 <= j < rolls.len() ==> (#[trigger] views_of(rolls@)[j]) == rolls[j].view(),
            out@ == view::sum_totals(start@, views_of(rolls@).take(i as int)),
        decreases rolls.len() - i,
    {
        proof {
            view::lemma_sum_totals_step(start@, views_of(rolls@), i as int);
        }
        out.add_all_values(rolls[i].totals());
        i += 1;
    }
    proof {
        assert(views_of(rolls@).take(rolls.len() as int) =~= views_of(rolls@));
    }
    out
}

/// The traces of `rolls` as they stand inside another trace.
pub fn inner_results(rolls: &Vec<SubRoll>) -> (parts: Vec<String>)
    ensures
        crate::text::views(parts@) == view::inner_traces(views_of(rolls@)),
    decreases rolls, 0nat,
{
    let mut parts: Vec<String> = Vec::with_capacity(rolls.len());
    let mut i: usize = 0;
    proof {
        lemma_views_of(rolls@);
    }
    while i < rolls.len()
        invariant
            i <= rolls.len(),
            views_of(rolls@).len() == rolls.len(),
            forall|j: int|
                0 <= j < rolls.len() ==> (#[trigger] views_of(rolls@)[j]) == rolls[j].view(),
            crate::text::views(parts@) == view::inner_traces(views_of(rolls@).take(i as int)),
        decreases rolls.len() - i,
    {
        proof {
            view::lemma_inner_traces_step(views_of(rolls@), i as int);
        }
        let part = rolls[i].inner_intermediate_results();
        parts.push(part);
        i += 1;
    }
    proof {
        assert(views_of(rolls@).take(rolls.len() as int) =~= views_of(rolls@));
    }
    parts
}

/// The single dice of all of `rolls`, in order.
pub fn rolled_faces_of(rolls: &Vec<SubRoll>) -> (v: Vec<DieRoll>)
    ensures
        die_views_of(v@) == view::all_leaves(views_of(rolls@)),
    decreases rolls,
{
    let mut out: Vec<DieRoll> = Vec::new();
    let mut i: usize = 0;
    proof {
        lemma_views_of(rolls@);
    }
    while i < rolls.len()
        invariant
            i <= rolls.len(),
            views_of(rolls@).len() == rolls.len(),
            forall|j: int|
                0 <= j < rolls.len() ==> (#[trigger] views_of(rolls@)[j]) == rolls[j].view(),
            die_views_of(out@) == view::all_leaves(views_of(rolls@).take(i as int)),
        decreases rolls.len() - i,
    {
        proof {
            view::lemma_all_leaves_step(views_of(rolls@), i as int);
        }
        let mut more = rolls[i].rolled_faces();
        out.append(&mut more);
        i += 1;
    }
    proof {
        assert(views_of(rolls@).take(rolls.len() as int) =~= views_of(rolls@));
    }
    out
}

impl SubRoller {
    /// Rolls on `rng` and gives the roll as a roll of any kind.
    pub fn roll_with(&self, rng: &mut Rng) -> (r: Roll)
        requires
            self.wf(),
        ensures
            r matches Roll::Sub(roll) && (roll.view(), final(rng).seed()) == self.rolled(
                old(rng).seed(),
            ),
    {
        Roll::Sub(self.inner_roll_with(rng))
    }

    /// Rolls on a generator seeded from the clock: the roll is what rolling
    /// gives for some seed.
    pub fn roll(&self) -> (r: Roll)
        requires
            self.wf(),
        ensures
            r matches Roll::Sub(roll) && exists|seed: u64|
                roll.view() == (#[trigger] self.rolled(seed)).0,
    {
        let mut rng = default_rng();
        self.roll_with(&mut rng)
    }

    /// A handle to the pool of `n` rolls of this roller that keeps them all.
    pub fn n_times(self, n: u8) -> (r: Rc<PoolRoller>)
        ensures
            *r == (PoolRoller { count: n, die: self, strategy: Strategy::KeepAll }),
    {
        PoolRoller::basic(self, n)
    }

    /// A handle to the pool of `n` rolls of this roller under `strategy`,
    /// unless the strategy would drop every roll.
    pub fn n_times_and(self, n: u8, strategy: Strategy) -> (r: Option<Rc<PoolRoller>>)
        ensures
            strategy.spec_count() >= n ==> r is None,
            strategy.spec_count() < n ==> r is Some && *r->0 == (PoolRoller {
                count: n,
                die: self,
                strategy,
            }),
    {
        PoolRoller::new(self, n, strategy)
    }

    /// A handle to the roller that rolls this roller `num_runs` times for
    /// statistics.
    pub fn get_stats(self, num_runs: u32) -> (r: Rc<StatsRoller>)
        requires
            num_runs > 0,
        ensures
            *r == (StatsRoller { runs: num_runs, roller: self }),
    {
        StatsRoller::new(self, num_runs)
    }

    /// A handle to the chain of this roller plus `other`.
    pub fn plus(self, other: SubRoller) -> (r: Rc<MathRoller>)
        ensures
            r.inner@ == seq![RollerMathType::First(self), RollerMathType::Add(other)],
    {
        MathRoller::add(self, other)
    }

    /// A handle to the chain of this roller minus `other`.
    pub fn minus(self, other: SubRoller) -> (r: Rc<MathRoller>)
        ensures
            r.inner@ == seq![RollerMathType::First(self), RollerMathType::Subtract(other)],
    {
        MathRoller::subtract(self, other)
    }

    /// A handle to the chain of this roller plus the constant `value`.
    pub fn plus_modifier(self, value: Values) -> (r: Rc<MathRoller>)
        ensures
            r.inner@.len() == 2,
            r.inner@[0] == RollerMathType::First(self),
            r.inner@[1] matches RollerMathType::Add(SubRoller::Value(v)) && v.name is None
                && v.values == value,
    {
        MathRoller::add(self, value.to_roller())
    }

    /// A handle to the chain of this roller minus the constant `value`.
    pub fn minus_modifier(self, value: Values) -> (r: Rc<MathRoller>)
        ensures
            r.inner@.len() == 2,
            r.inner@[0] == RollerMathType::First(self),
            r.inner@[1] matches RollerMathType::Subtract(SubRoller::Value(v)) && v.name is None
                && v.values == value,
    {
        MathRoller::subtract(self, value.to_roller())
    }

    /// A handle to the chain of this roller plus the constant `values`,
    /// shown as `name`.
    pub fn plus_named_modifier(self, name: Name, values: Values) -> (r: Rc<MathRoller>)
        ensures
            r.inner@.len() == 2,
            r.inner@[0] == RollerMathType::First(self),
            r.inner@[1] matches RollerMathType::Add(SubRoller::Value(v)) && v.name == Some(name)
                && v.values == values,
    {
        MathRoller::add(self, values.to_roller_with_name(name))
    }

    /// A handle to the chain of this roller minus the constant `values`,
    /// shown as `name`.
    pub fn minus_named_modifier(self, name: Name, values: Values) -> (r: Rc<MathRoller>)
        ensures
            r.inner@.len() == 2,
            r.inner@[0] == RollerMathType::First(self),
            r.inner@[1] matches RollerMathType::Subtract(SubRoller::Value(v)) && v.name == Some(
                name,
            ) && v.values == values,
    {
        MathRoller::subtract(self, values.to_roller_with_name(name))
    }
}

/// A roller of any kind: one that gives a single result, one under a name,
/// or a list of named rollers. Only the first kind can stand inside a pool,
/// a chain or a roller with a modifier.
#[derive(Debug)]
pub enum Roller {
    Sub(SubRoller),
    Named(Rc<NamedRoller>),
    Multi(Rc<MultiRoller>),
}

impl Clone for Roller {
    fn clone(&self) -> (r: Self)
        ensures
            r == *self,
    {
        match self {
            Roller::Sub(s) => Roller::Sub(s.clone()),
            Roller::Named(n) => Roller::Named(crate::share::share(n)),
            Roller::Multi(m) => Roller::Multi(crate::share::share(m)),
        }
    }
}

impl Roller {
    /// Whether the roller can be rolled.
    pub open spec fn wf(&self) -> bool
        decreases self,
    {
        match self {
            Roller::Sub(s) => s.wf(),
            Roller::Named(n) => n.wf(),
            Roller::Multi(m) => m.wf(),
        }
    }

    /// The description of the roller.
    pub open spec fn description_text(&self) -> Seq<char>
        decreases self,
    {
        match self {
            Roller::Sub(s) => s.description_text(),
            Roller::Named(n) => n.description_text(),
            Roller::Multi(m) => m.description_text(),
        }
    }

    /// What rolling gives when the stream stands at `seed`, and where the
    /// stream stands afterwards.
    pub open spec fn rolled(&self, seed: u64) -> (TopRollView, u64)
        decreases self,
    {
        match self {
            Roller::Sub(s) => (TopRollView::Sub(s.rolled(seed).0), s.rolled(seed).1),
            Roller::Named(n) => n.rolled(seed),
            Roller::Multi(m) => m.rolled(seed),
        }
    }

    /// Whether the roller can be rolled.
    pub fn can_roll(&self) -> (b: bool)
        ensures
            b == self.wf(),
        decreases self,
    {
        match self {
            Roller::Sub(s) => s.can_roll(),
            Roller::Named(n) => n.can_roll(),
            Roller::Multi(m) => m.can_roll(),
        }
    }

    /// The description of the roller.
    pub fn description(&self) -> (s: String)
        ensures
            s@ == self.description_text(),
        decreases self,
    {
        match self {
            Roller::Sub(s) => s.description(),
            Roller::Named(n) => n.description(),
            Roller::Multi(m) => m.description(),
        }
    }

    /// Rolls on a generator seeded from the clock: the roll is what rolling
    /// gives for some seed.
    pub fn roll(&self) -> (r: Roll)
        requires
            self.wf(),
        ensures
            exists|seed: u64| r.view() == (#[trigger] self.rolled(seed)).0,
    {
        let mut rng = default_rng();
        self.roll_with(&mut rng)
    }

    /// Rolls on `rng` and gives the roll.
    pub fn roll_with(&self, rng: &mut Rng) -> (r: Roll)
        requires
            self.wf(),
        ensures
            (r.view(), final(rng).seed()) == self.rolled(old(rng).seed()),
        decreases self,
    {
        match self {
            Roller::Sub(s) => Roll::Sub(s.inner_roll_with(rng)),
            Roller::Named(n) => Roll::Named(Box::new(n.roll_with(rng))),
            Roller::Multi(m) => Roll::Multi(m.roll_with(rng)),
        }
    }
}

/// A roll of any kind.
#[derive(Debug)]
pub enum Roll {
    Sub(SubRoll),
    Named(Box<NamedRoll>),
    Multi(MultiRoll),
}

impl Roll {
    /// The model of the roll.
    pub open spec fn view(&self) -> TopRollView
        decreases self,
    {
        match self {
            Roll::Sub(r) => TopRollView::Sub(r.view()),
            Roll::Named(r) => r.view(),
            Roll::Multi(r) => r.view(),
        }
    }

    /// The trace of the roll: what was rolled and how it was combined.
    pub fn intermediate_results(&self) -> (s: String)
        ensures
            s@ == self.view().trace(),
        decreases self,
    {
        match self {
            Roll::Sub(r) => r.intermediate_results(),
            Roll::Named(r) => r.intermediate_results(),
            Roll::Multi(r) => r.intermediate_results(),
        }
    }

    /// The final result of the roll.
    pub fn final_result(&self) -> (s: String)
        ensures
            s@ == self.view().final_text(),
        decreases self,
    {
        match self {
            Roll::Sub(r) => r.final_result(),
            Roll::Named(r) => r.final_result(),
            Roll::Multi(r) => r.final_result(),
        }
    }
}

} // verus!
