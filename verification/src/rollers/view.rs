//! The mathematical model of a roll: what was rolled, as a tree, and what
//! follows from it: totals, trace and rolled faces.

use vstd::prelude::*;
use crate::text::{decimal_digits, joined, wrapped};
use crate::value::{listing, merged, merged_all, negated_all, Value};

verus! {

/// How a term enters a chain of additions and subtractions.
#[derive(Clone, Copy, Debug, PartialEq, Eq)]
pub enum MathOp {
    /// The first term of the chain.
    First,
    /// A term that is added.
    Add,
    /// A term that is subtracted.
    Subtract,
}

/// One term of a rolled chain.
pub struct TermView {
    pub op: MathOp,
    pub roll: RollView,
}

/// A roll that has been made.
pub enum RollView {
    /// One die came up with one face.
    Die { die: Seq<char>, face: Seq<char>, values: Seq<Value> },
    /// A die exploded: the face that triggered it and the rerolls it caused.
    Exploded { trigger: Box<RollView>, triggered: Seq<RollView> },
    /// A pool: the rolls that count and those that were dropped.
    Pool { kept: Seq<RollView>, dropped: Seq<RollView> },
    /// A chain of additions and subtractions.
    Math { terms: Seq<TermView> },
    /// A roll with a constant added.
    Modifier { inner: Box<RollView>, modifier: Value },
    /// A constant, with or without a name.
    Constant { name: Option<Seq<char>>, values: Seq<Value> },
}

impl TermView {
    /// What the term contributes: its totals, negated if it is subtracted.
    pub open spec fn totals(self) -> Seq<Value>
        decreases self,
    {
        match self.op {
            MathOp::Subtract => negated_all(self.roll.totals()),
            _ => self.roll.totals(),
        }
    }

    /// The trace of the term, after its sign.
    pub open spec fn trace(self) -> Seq<char>
        decreases self,
    {
        match self.op {
            MathOp::First => self.roll.inner_trace(),
            MathOp::Add => " + "@ + self.roll.inner_trace(),
            MathOp::Subtract => " - "@ + self.roll.inner_trace(),
        }
    }
}

impl RollView {
    /// The totals of the roll.
    pub open spec fn totals(self) -> Seq<Value>
        decreases self,
    {
        match self {
            RollView::Die { values, .. } => values,
            RollView::Exploded { trigger, triggered } => sum_totals(trigger.totals(), triggered),
            RollView::Pool { kept, .. } => sum_totals(Seq::empty(), kept),
            RollView::Math { terms } => sum_terms(Seq::empty(), terms),
            RollView::Modifier { inner, modifier } => merged(inner.totals(), modifier),
            RollView::Constant { values, .. } => values,
        }
    }

    /// Whether the trace can stand inside another trace without brackets.
    pub open spec fn is_simple(self) -> bool {
        match self {
            RollView::Die { .. } => true,
            RollView::Exploded { .. } => false,
            RollView::Pool { dropped, .. } => dropped.len() == 0,
            RollView::Math { .. } => false,
            RollView::Modifier { .. } => true,
            RollView::Constant { name, .. } => name is Some,
        }
    }

    /// The trace of the roll: what was rolled and how it was combined.
    pub open spec fn trace(self) -> Seq<char>
        decreases self, 0nat,
    {
        match self {
            RollView::Die { die, face, .. } => die + ":["@ + face + "]"@,
            RollView::Exploded { trigger, triggered } => if triggered.len() == 1 {
                trigger.inner_trace() + " => (exploded: "@ + triggered[0].inner_trace() + ")"@
            } else {
                trigger.trace() + " => (exploded "@ + decimal_digits(triggered.len())
                    + " times: "@ + joined(inner_traces(triggered), ", "@) + ")"@
            },
            RollView::Pool { kept, dropped } => if dropped.len() == 0 {
                joined(inner_traces(kept), " + "@)
            } else {
                joined(inner_traces(kept), " + "@) + ", [dropped: "@ + joined(
                    inner_traces(dropped),
                    ", "@,
                ) + "]"@
            },
            RollView::Math { terms } => term_traces(terms),
            RollView::Modifier { inner, modifier } => inner.inner_trace() + " + "@
                + modifier.spec_output(),
            RollView::Constant { name, values } => match name {
                Some(name) => name,
                None => listing(values),
            },
        }
    }

    /// The trace as it stands inside another trace: in round brackets unless
    /// the roll is simple.
    pub open spec fn inner_trace(self) -> Seq<char>
        decreases self, 1nat,
    {
        wrapped(self.trace(), self.is_simple())
    }

    /// The final result: the listing of the totals; for a constant, its trace.
    pub open spec fn final_text(self) -> Seq<char> {
        match self {
            RollView::Constant { .. } => self.trace(),
            _ => listing(self.totals()),
        }
    }

    /// The single dice that were rolled and count, in the order of the trace.
    pub open spec fn leaves(self) -> Seq<RollView>
        decreases self,
    {
        match self {
            RollView::Die { .. } => seq![self],
            RollView::Exploded { trigger, triggered } => trigger.leaves() + all_leaves(triggered),
            RollView::Pool { kept, .. } => all_leaves(kept),
            RollView::Math { terms } => term_leaves(terms),
            RollView::Modifier { inner, .. } => inner.leaves(),
            RollView::Constant { .. } => Seq::empty(),
        }
    }
}

/// `start` with the totals of each of `rolls` added, in their order.
pub open spec fn sum_totals(start: Seq<Value>, rolls: Seq<RollView>) -> Seq<Value>
    decreases rolls,
{
    if rolls.len() == 0 {
        start
    } else {
        merged_all(sum_totals(start, rolls.drop_last()), rolls.last().totals())
    }
}

/// `start` with the contribution of each of `terms` added, in their order.
pub open spec fn sum_terms(start: Seq<Value>, terms: Seq<TermView>) -> Seq<Value>
    decreases terms,
{
    if terms.len() == 0 {
        start
    } else {
        merged_all(sum_terms(start, terms.drop_last()), terms.last().totals())
    }
}

/// The traces of `rolls` as they stand inside another trace.
pub open spec fn inner_traces(rolls: Seq<RollView>) -> Seq<Seq<char>>
    decreases rolls,
{
    if rolls.len() == 0 {
        Seq::empty()
    } else {
        inner_traces(rolls.drop_last()).push(rolls.last().inner_trace())
    }
}

/// The traces of `terms`, one after another.
pub open spec fn term_traces(terms: Seq<TermView>) -> Seq<char>
    decreases terms,
{
    if terms.len() == 0 {
        Seq::empty()
    } else {
        term_traces(terms.drop_last()) + terms.last().trace()
    }
}

/// The single dice of all of `rolls`, in order.
pub open spec fn all_leaves(rolls: Seq<RollView>) -> Seq<RollView>
    decreases rolls,
{
    if rolls.len() == 0 {
        Seq::empty()
    } else {
        all_leaves(rolls.drop_last()) + rolls.last().leaves()
    }
}

/// The single dice of all of `terms`, in order.
pub open spec fn term_leaves(terms: Seq<TermView>) -> Seq<RollView>
    decreases terms,
{
    if terms.len() == 0 {
        Seq::empty()
    } else {
        term_leaves(terms.drop_last()) + terms.last().roll.leaves()
    }
}

/// One more roll adds its totals to the sum.
pub proof fn lemma_sum_totals_step(start: Seq<Value>, rolls: Seq<RollView>, i: int)
    requires
        0 <= i < rolls.len(),
    ensures
        sum_totals(start, rolls.take(i + 1)) == merged_all(
            sum_totals(start, rolls.take(i)),
            rolls[i].totals(),
        ),
        rolls.take(rolls.len() as int) == rolls,
        sum_totals(start, rolls.take(0)) == start,
{
    assert(rolls.take(i + 1).drop_last() =~= rolls.take(i));
}

/// One more term adds its contribution to the sum.
pub proof fn lemma_sum_terms_step(start: Seq<Value>, terms: Seq<TermView>, i: int)
    requires
        0 <= i < terms.len(),
    ensures
        sum_terms(start, terms.take(i + 1)) == merged_all(
            sum_terms(start, terms.take(i)),
            terms[i].totals(),
        ),
        terms.take(terms.len() as int) == terms,
        sum_terms(start, terms.take(0)) == start,
{
    assert(terms.take(i + 1).drop_last() =~= terms.take(i));
}

/// One more roll adds its trace to the list.
pub proof fn lemma_inner_traces_step(rolls: Seq<RollView>, i: int)
    requires
        0 <= i < rolls.len(),
    ensures
        inner_traces(rolls.take(i + 1)) == inner_traces(rolls.take(i)).push(rolls[i].inner_trace()),
        rolls.take(rolls.len() as int) == rolls,
        inner_traces(rolls.take(0)) == Seq::<Seq<char>>::empty(),
{
    assert(rolls.take(i + 1).drop_last() =~= rolls.take(i));
}

/// One more term adds its trace to the text.
pub proof fn lemma_term_traces_step(terms: Seq<TermView>, i: int)
    requires
        0 <= i < terms.len(),
    ensures
        term_traces(terms.take(i + 1)) == term_traces(terms.take(i)) + terms[i].trace(),
        terms.take(terms.len() as int) == terms,
        term_traces(terms.take(0)) == Seq::<char>::empty(),
{
    assert(terms.take(i + 1).drop_last() =~= terms.take(i));
}

/// One more roll adds its dice to the list.
pub proof fn lemma_all_leaves_step(rolls: Seq<RollView>, i: int)
    requires
        0 <= i < rolls.len(),
    ensures
        all_leaves(rolls.take(i + 1)) == all_leaves(rolls.take(i)) + rolls[i].leaves(),
        rolls.take(rolls.len() as int) == rolls,
        all_leaves(rolls.take(0)) == Seq::<RollView>::empty(),
{
    assert(rolls.take(i + 1).drop_last() =~= rolls.take(i));
}

/// One more term adds its dice to the list.
pub proof fn lemma_term_leaves_step(terms: Seq<TermView>, i: int)
    requires
        0 <= i < terms.len(),
    ensures
        term_leaves(terms.take(i + 1)) == term_leaves(terms.take(i)) + terms[i].roll.leaves(),
        terms.take(terms.len() as int) == terms,
        term_leaves(terms.take(0)) == Seq::<RollView>::empty(),
{
    assert(terms.take(i + 1).drop_last() =~= terms.take(i));
}

} // verus!
