//! Chains of additions and subtractions.

use vstd::prelude::*;
use std::rc::Rc;
use crate::name::Name;
use crate::random::Rng;
use crate::rollers::view::{MathOp, RollView, TermView};
use crate::rollers::{die_views_of, term_views_of, DieRoll, SubRoll, SubRoller};
use crate::value::Values;
use vstd::string::StringExecFns;

verus! {

/// One term of a rolled chain: the first, an added or a subtracted roll.
#[derive(Debug)]
pub enum RollMathType {
    First(SubRoll),
    Add(SubRoll),
    Subtract(SubRoll),
}

impl RollMathType {
    /// The model of the term.
    pub open spec fn view(&self) -> TermView
        decreases self,
    {
        match self {
            RollMathType::First(roll) => TermView { op: MathOp::First, roll: roll.view() },
            RollMathType::Add(roll) => TermView { op: MathOp::Add, roll: roll.view() },
            RollMathType::Subtract(roll) => TermView { op: MathOp::Subtract, roll: roll.view() },
        }
    }

    /// The trace of the term, after its sign.
    pub fn intermediate_results(&self) -> (s: String)
        ensures
            s@ == self.view().trace(),
        decreases self,
    {
        match self {
            RollMathType::First(roll) => roll.inner_intermediate_results(),
            RollMathType::Add(roll) => {
                let mut out = String::from_str(" + ");
                out.append(roll.inner_intermediate_results().as_str());
                out
            },
            RollMathType::Subtract(roll) => {
                let mut out = String::from_str(" - ");
                out.append(roll.inner_intermediate_results().as_str());
                out
            },
        }
    }

    /// The single dice of the term.
    pub fn rolled_faces(&self) -> (v: Vec<DieRoll>)
        ensures
            die_views_of(v@) == self.view().roll.leaves(),
        decreases self,
    {
        match self {
            RollMathType::First(roll) => roll.rolled_faces(),
            RollMathType::Add(roll) => roll.rolled_faces(),
            RollMathType::Subtract(roll) => roll.rolled_faces(),
        }
    }

    /// What the term contributes: its totals, negated if it is subtracted.
    pub fn totals(&self) -> (v: Values)
        ensures
            v@ == self.view().totals(),
        decreases self,
    {
        match self {
            RollMathType::First(roll) => roll.totals(),
            RollMathType::Add(roll) => roll.totals(),
            RollMathType::Subtract(roll) => roll.totals().neg(),
        }
    }
}

/// The result of rolling a chain of additions and subtractions.
#[derive(Debug)]
pub struct MathRoll {
    pub inner: Vec<RollMathType>,
}

impl MathRoll {
    /// The model of the roll.
    pub open spec fn view(&self) -> RollView {
        RollView::Math { terms: term_views_of(self.inner@) }
    }

    /// The rolled chain with these terms.
    pub fn new(inner: Vec<RollMathType>) -> (r: MathRoll)
        ensures
            r.inner == inner,
    {
        MathRoll { inner }
    }

    /// The trace: the traces of the terms, one after another.
    pub fn intermediate_results(&self) -> (s: String)
        ensures
            s@ == self.view().trace(),
        decreases self,
    {
        let mut out = String::new();
        let mut i: usize = 0;
        proof {
            crate::rollers::lemma_term_views_of(self.inner@);
        }
        while i < self.inner.len()
            invariant
                i <= self.inner.len(),
                term_views_of(self.inner@).len() == self.inner.len(),
                forall|j: int|
                    0 <= j < self.inner.len() ==> (#[trigger] term_views_of(self.inner@)[j])
                        == self.inner[j].view(),
                out@ == crate::rollers::view::term_traces(
                    term_views_of(self.inner@).take(i as int),
                ),
            decreases self.inner.len() - i,
        {
            proof {
                crate::rollers::view::lemma_term_traces_step(term_views_of(self.inner@), i as int);
            }
            out.append(self.inner[i].intermediate_results().as_str());
            i += 1;
        }
        proof {
            assert(term_views_of(self.inner@).take(self.inner.len() as int) =~= term_views_of(
                self.inner@,
            ));
        }
        out
    }

    /// The final result: the listing of the totals.
    pub fn final_result(&self) -> (s: String)
        ensures
            s@ == self.view().final_text(),
    {
        self.totals().to_string()
    }

    /// A chain is never simple.
    pub fn is_simple(&self) -> (b: bool)
        ensures
            !b,
            b == self.view().is_simple(),
    {
        false
    }

    /// The single dice of every term.
    pub fn rolled_faces(&self) -> (v: Vec<DieRoll>)
        ensures
            die_views_of(v@) == self.view().leaves(),
        decreases self,
    {
        let mut out: Vec<DieRoll> = Vec::with_capacity(self.inner.len());
        let mut i: usize = 0;
        proof {
            crate::rollers::lemma_term_views_of(self.inner@);
        }
        while i < self.inner.len()
            invariant
                i <= self.inner.len(),
                term_views_of(self.inner@).len() == self.inner.len(),
                forall|j: int|
                    0 <= j < self.inner.len() ==> (#[trigger] term_views_of(self.inner@)[j])
                        == self.inner[j].view(),
                die_views_of(out@) == crate::rollers::view::term_leaves(
                    term_views_of(self.inner@).take(i as int),
                ),
            decreases self.inner.len() - i,
        {
            proof {
                crate::rollers::view::lemma_term_leaves_step(term_views_of(self.inner@), i as int);
            }
            let mut more = self.inner[i].rolled_faces();
            out.append(&mut more);
            i += 1;
        }
        proof {
            assert(term_views_of(self.inner@).take(self.inner.len() as int) =~= term_views_of(
                self.inner@,
            ));
        }
        out
    }

    /// The totals: the contributions of the terms, added in their order.
    pub fn totals(&self) -> (v: Values)
        ensures
            v@ == self.view().totals(),
        decreases self,
    {
        let mut out = Values::new();
        let mut i: usize = 0;
        proof {
            crate::rollers::lemma_term_views_of(self.inner@);
        }
        while i < self.inner.len()
            invariant
                i <= self.inner.len(),
                term_views_of(self.inner@).len() == self.inner.len(),
                forall|j: int|
                    0 <= j < self.inner.len() ==> (#[trigger] term_views_of(self.inner@)[j])
                        == self.inner[j].view(),
                out@ == crate::rollers::view::sum_terms(
                    Seq::empty(),
                    term_views_of(self.inner@).take(i as int),
                ),
            decreases self.inner.len() - i,
        {
            proof {
                crate::rollers::view::lemma_sum_terms_step(
                    Seq::empty(),
                    term_views_of(self.inner@),
                    i as int,
                );
            }
            out.add_all_values(self.inner[i].totals());
            i += 1;
        }
        proof {
            assert(term_views_of(self.inner@).take(self.inner.len() as int) =~= term_views_of(
                self.inner@,
            ));
        }
        out
    }
}

/// One term of a chain: the first, an added or a subtracted roller.
///
/// The tag tells how the term is written: the first stands alone, the others
/// after ` + ` or ` - `.
#[derive(Debug)]
pub enum RollerMathType {
    First(SubRoller),
    Add(SubRoller),
    Subtract(SubRoller),
}

impl RollerMathType {
    /// How the term enters the chain.
    pub open spec fn op(&self) -> MathOp {
        match self {
            RollerMathType::First(_) => MathOp::First,
            RollerMathType::Add(_) => MathOp::Add,
            RollerMathType::Subtract(_) => MathOp::Subtract,
        }
    }

    /// The roller of the term.
    pub open spec fn roller(&self) -> &SubRoller {
        match self {
            RollerMathType::First(roller) => roller,
            RollerMathType::Add(roller) => roller,
            RollerMathType::Subtract(roller) => roller,
        }
    }

    /// The description of the term, after its sign.
    pub open spec fn description_text(&self) -> Seq<char>
        decreases self,
    {
        match self {
            RollerMathType::First(roller) => roller.inner_description_text(),
            RollerMathType::Add(roller) => " + "@ + roller.inner_description_text(),
            RollerMathType::Subtract(roller) => " - "@ + roller.inner_description_text(),
        }
    }

    /// What rolling the term gives, and where the stream stands afterwards.
    pub open spec fn rolled(&self, seed: u64) -> (TermView, u64)
        decreases self,
    {
        match self {
            RollerMathType::First(roller) => (
                TermView { op: MathOp::First, roll: roller.rolled(seed).0 },
                roller.rolled(seed).1,
            ),
            RollerMathType::Add(roller) => (
                TermView { op: MathOp::Add, roll: roller.rolled(seed).0 },
                roller.rolled(seed).1,
            ),
            RollerMathType::Subtract(roller) => (
                TermView { op: MathOp::Subtract, roll: roller.rolled(seed).0 },
                roller.rolled(seed).1,
            ),
        }
    }

    /// The description of the term, after its sign.
    pub fn description(&self) -> (s: String)
        ensures
            s@ == self.description_text(),
        decreases self,
    {
        match self {
            RollerMathType::First(roller) => roller.inner_description(),
            RollerMathType::Add(roller) => {
                let mut out = String::from_str(" + ");
                out.append(roller.inner_description().as_str());
                out
            },
            RollerMathType::Subtract(roller) => {
                let mut out = String::from_str(" - ");
                out.append(roller.inner_description().as_str());
                out
            },
        }
    }

    /// Rolls the term on `rng`.
    pub fn roll_with(&self, rng: &mut Rng) -> (r: RollMathType)
        requires
            self.roller().wf(),
        ensures
            (r.view(), final(rng).seed()) == self.rolled(old(rng).seed()),
        decreases self,
    {
        match self {
            RollerMathType::First(roller) => RollMathType::First(roller.inner_roll_with(rng)),
            RollerMathType::Add(roller) => RollMathType::Add(roller.inner_roll_with(rng)),
            RollerMathType::Subtract(roller) => RollMathType::Subtract(roller.inner_roll_with(rng)),
        }
    }
}

/// Whether every term of `terms` can be rolled.
pub open spec fn terms_wf(terms: Seq<RollerMathType>) -> bool
    decreases terms,
{
    if terms.len() == 0 {
        true
    } else {
        terms_wf(terms.drop_last()) && terms.last().roller().wf()
    }
}

/// The descriptions of `terms`, one after another.
pub open spec fn term_descriptions(terms: Seq<RollerMathType>) -> Seq<char>
    decreases terms,
{
    if terms.len() == 0 {
        Seq::empty()
    } else {
        term_descriptions(terms.drop_last()) + terms.last().description_text()
    }
}

/// What rolling `terms` from left to right gives, and where the stream
/// stands afterwards.
pub open spec fn terms_rolled(terms: Seq<RollerMathType>, seed: u64) -> (Seq<TermView>, u64)
    decreases terms,
{
    if terms.len() == 0 {
        (Seq::empty(), seed)
    } else {
        let (front, middle) = terms_rolled(terms.drop_last(), seed);
        let (term, after) = terms.last().rolled(middle);
        (front.push(term), after)
    }
}

/// A chain is well formed as far as its terms are, one by one.
pub proof fn lemma_terms_wf(terms: Seq<RollerMathType>)
    ensures
        terms_wf(terms) <==> forall|i: int|
            0 <= i < terms.len() ==> (#[trigger] terms[i]).roller().wf(),
    decreases terms.len(),
{
    if terms.len() > 0 {
        let front = terms.drop_last();
        lemma_terms_wf(front);
        if terms_wf(terms) {
            assert forall|i: int| 0 <= i < terms.len() implies (
            #[trigger] terms[i]).roller().wf() by {
                if i < front.len() {
                    assert(front[i] == terms[i]);
                }
            }
        } else if terms.last().roller().wf() {
            let i = choose|i: int| 0 <= i < front.len() && !(#[trigger] front[i]).roller().wf();
        }
    }
}

/// A roller that adds and subtracts the results of other rollers: a first
/// term, then terms that are added or subtracted.
#[derive(Debug)]
pub struct MathRoller {
    pub inner: Vec<RollerMathType>,
}

impl MathRoller {
    /// Whether the chain can be rolled: each of its terms can.
    pub open spec fn wf(&self) -> bool
        decreases self,
    {
        terms_wf(self.inner@)
    }

    /// Whether the chain has the shape that the constructors give it: a first
    /// term, then added and subtracted terms only.
    pub open spec fn is_chain(&self) -> bool {
        &&& self.inner@.len() >= 1
        &&& self.inner@[0] is First
        &&& forall|i: int| 1 <= i < self.inner@.len() ==> !(#[trigger] self.inner@[i] is First)
    }

    /// The description: the descriptions of the terms, one after another.
    pub open spec fn description_text(&self) -> Seq<char>
        decreases self,
    {
        term_descriptions(self.inner@)
    }

    /// What rolling the chain gives, and where the stream stands afterwards.
    pub open spec fn rolled(&self, seed: u64) -> (RollView, u64)
        decreases self,
    {
        (
            RollView::Math { terms: terms_rolled(self.inner@, seed).0 },
            terms_rolled(self.inner@, seed).1,
        )
    }

    /// A handle to the chain `lhs + rhs`.
    pub fn add(lhs: SubRoller, rhs: SubRoller) -> (r: Rc<MathRoller>)
        ensures
            r.inner@ == seq![RollerMathType::First(lhs), RollerMathType::Add(rhs)],
            r.is_chain(),
    {
        let mut inner: Vec<RollerMathType> = Vec::with_capacity(2);
        inner.push(RollerMathType::First(lhs));
        inner.push(RollerMathType::Add(rhs));
        Rc::new(MathRoller { inner })
    }

    /// A handle to the chain `lhs - rhs`.
    pub fn subtract(lhs: SubRoller, rhs: SubRoller) -> (r: Rc<MathRoller>)
        ensures
            r.inner@ == seq![RollerMathType::First(lhs), RollerMathType::Subtract(rhs)],
            r.is_chain(),
    {
        let mut inner: Vec<RollerMathType> = Vec::with_capacity(2);
        inner.push(RollerMathType::First(lhs));
        inner.push(RollerMathType::Subtract(rhs));
        Rc::new(MathRoller { inner })
    }

    /// The chain with `roller` added at its end.
    pub fn plus(self, roller: SubRoller) -> (r: MathRoller)
        ensures
            r.inner@ == self.inner@.push(RollerMathType::Add(roller)),
    {
        let mut chain = self;
        chain.inner.push(RollerMathType::Add(roller));
        chain
    }

    /// The chain with the constant `modifier` added at its end.
    pub fn plus_modifier(self, modifier: Values) -> (r: MathRoller)
        ensures
            r.inner@.len() == self.inner@.len() + 1,
            r.inner@.drop_last() == self.inner@,
            r.inner@.last() matches RollerMathType::Add(SubRoller::Value(v)) && v.name is None
                && v.values@ == modifier@,
    {
        let roller = modifier.to_roller();
        let mut chain = self;
        chain.inner.push(RollerMathType::Add(roller));
        chain
    }

    /// The chain with the constant `modifier` added at its end, shown under
    /// `modifier_name`.
    pub fn plus_named_modifier(self, modifier_name: Name, modifier: Values) -> (r: MathRoller)
        ensures
            r.inner@.len() == self.inner@.len() + 1,
            r.inner@.drop_last() == self.inner@,
            r.inner@.last() matches RollerMathType::Add(SubRoller::Value(v)) && v.name == Some(
                modifier_name,
            ) && v.values@ == modifier@,
    {
        let roller = modifier.to_roller_with_name(modifier_name);
        let mut chain = self;
        chain.inner.push(RollerMathType::Add(roller));
        chain
    }

    /// The chain with each of `rollers` added at its end, in their order.
    pub fn plus_all(self, rollers: Vec<SubRoller>) -> (r: MathRoller)
        ensures
            r.inner@ == self.inner@ + rollers@.map_values(|x: SubRoller| RollerMathType::Add(x)),
    {
        let mut chain = self;
        let mut i: usize = 0;
        let ghost want = rollers@.map_values(|x: SubRoller| RollerMathType::Add(x));
        while i < rollers.len()
            invariant
                i <= rollers.len(),
                want == rollers@.map_values(|x: SubRoller| RollerMathType::Add(x)),
                chain.inner@ == self.inner@ + want.take(i as int),
            decreases rollers.len() - i,
        {
            chain.inner.push(RollerMathType::Add(rollers[i].clone()));
            i += 1;
        }
        chain
    }

    /// The chain with `roller` subtracted at its end.
    pub fn minus(self, roller: SubRoller) -> (r: MathRoller)
        ensures
            r.inner@ == self.inner@.push(RollerMathType::Subtract(roller)),
    {
        let mut chain = self;
        chain.inner.push(RollerMathType::Subtract(roller));
        chain
    }

    /// The chain with the constant `modifier` subtracted at its end.
    pub fn minus_modifier(self, modifier: Values) -> (r: MathRoller)
        ensures
            r.inner@.len() == self.inner@.len() + 1,
            r.inner@.drop_last() == self.inner@,
            r.inner@.last() matches RollerMathType::Subtract(SubRoller::Value(v)) && v.name is None
                && v.values@ == modifier@,
    {
        let roller = modifier.to_roller();
        let mut chain = self;
        chain.inner.push(RollerMathType::Subtract(roller));
        chain
    }

    /// The chain with the constant `modifier` subtracted at its end, shown
    /// under `modifier_name`.
    pub fn minus_named_modifier(self, modifier_name: Name, modifier: Values) -> (r: MathRoller)
        ensures
            r.inner@.len() == self.inner@.len() + 1,
            r.inner@.drop_last() == self.inner@,
            r.inner@.last() matches RollerMathType::Subtract(SubRoller::Value(v)) && v.name == Some(
                modifier_name,
            ) && v.values@ == modifier@,
    {
        let roller = modifier.to_roller_with_name(modifier_name);
        let mut chain = self;
        chain.inner.push(RollerMathType::Subtract(roller));
        chain
    }

    /// The chain with each of `rollers` subtracted at its end, in their order.
    pub fn minus_all(self, rollers: Vec<SubRoller>) -> (r: MathRoller)
        ensures
            r.inner@ == self.inner@ + rollers@.map_values(
                |x: SubRoller| RollerMathType::Subtract(x),
            ),
    {
        let mut chain = self;
        let mut i: usize = 0;
        let ghost want = rollers@.map_values(|x: SubRoller| RollerMathType::Subtract(x));
        while i < rollers.len()
            invariant
                i <= rollers.len(),
                want == rollers@.map_values(|x: SubRoller| RollerMathType::Subtract(x)),
                chain.inner@ == self.inner@ + want.take(i as int),
            decreases rollers.len() - i,
        {
            chain.inner.push(RollerMathType::Subtract(rollers[i].clone()));
            i += 1;
        }
        chain
    }

    /// Whether the chain can be rolled.
    pub fn can_roll(&self) -> (b: bool)
        ensures
            b == self.wf(),
        decreases self,
    {
        let mut i: usize = 0;
        while i < self.inner.len()
            invariant
                i <= self.inner.len(),
                forall|j: int| 0 <= j < i ==> (#[trigger] self.inner@[j]).roller().wf(),
            decreases self.inner.len() - i,
        {
            let fine = match &self.inner[i] {
                RollerMathType::First(roller) => roller.can_roll(),
                RollerMathType::Add(roller) => roller.can_roll(),
                RollerMathType::Subtract(roller) => roller.can_roll(),
            };
            if !fine {
                proof {
                    lemma_terms_wf(self.inner@);
                }
                return false;
            }
            i += 1;
        }
        proof {
            lemma_terms_wf(self.inner@);
        }
        true
    }

    /// The description of the chain, such as `d6 + d8 - 2`.
    pub fn description(&self) -> (s: String)
        ensures
            s@ == self.description_text(),
        decreases self,
    {
        let mut out = String::new();
        let mut i: usize = 0;
        while i < self.inner.len()
            invariant
                i <= self.inner.len(),
                out@ == term_descriptions(self.inner@.take(i as int)),
            decreases self.inner.len() - i,
        {
            proof {
                assert(self.inner@.take(i + 1).drop_last() =~= self.inner@.take(i as int));
            }
            out.append(self.inner[i].description().as_str());
            i += 1;
        }
        assert(self.inner@.take(self.inner.len() as int) =~= self.inner@);
        out
    }

    /// A chain is never simple.
    pub fn is_simple(&self) -> (b: bool)
        ensures
            !b,
    {
        false
    }

    /// A chain is not a die.
    pub fn is_die(&self) -> (b: bool)
        ensures
            !b,
    {
        false
    }

    /// The description as it stands inside another: in round brackets.
    pub fn inner_description(&self) -> (s: String)
        ensures
            s@ == crate::text::wrapped(self.description_text(), false),
        decreases self, 1nat,
    {
        crate::text::wrapped_text(self.description().as_str(), self.is_simple())
    }

    /// Rolls every term on `rng`, from left to right.
    pub fn inner_roll_with(&self, rng: &mut Rng) -> (r: SubRoll)
        requires
            self.wf(),
        ensures
            (r.view(), final(rng).seed()) == self.rolled(old(rng).seed()),
        decreases self,
    {
        let mut terms: Vec<RollMathType> = Vec::with_capacity(self.inner.len());
        let mut i: usize = 0;
        proof {
            lemma_terms_wf(self.inner@);
        }
        while i < self.inner.len()
            invariant
                i <= self.inner.len(),
                forall|j: int|
                    0 <= j < self.inner@.len() ==> (#[trigger] self.inner@[j]).roller().wf(),
                (term_views_of(terms@), rng.seed()) == terms_rolled(
                    self.inner@.take(i as int),
                    old(rng).seed(),
                ),
            decreases self.inner.len() - i,
        {
            let term = self.inner[i].roll_with(rng);
            proof {
                assert(self.inner@.take(i + 1).drop_last() =~= self.inner@.take(i as int));
                assert(terms@.push(term).drop_last() =~= terms@);
            }
            terms.push(term);
            i += 1;
        }
        assert(self.inner@.take(self.inner.len() as int) =~= self.inner@);
        SubRoll::Math(MathRoll::new(terms))
    }
}

} // verus!
