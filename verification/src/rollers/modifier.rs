//! A roller with a constant value added to every roll.

use vstd::prelude::*;
use std::rc::Rc;
use crate::random::Rng;
use crate::rollers::view::RollView;
use crate::rollers::{die_views_of, DieRoll, SubRoll, SubRoller};
use crate::value::{Value, Values};
use vstd::string::StringExecFns;

verus! {

/// The result of rolling a roller with a modifier: the inner roll and the
/// value added to it.
#[derive(Debug)]
pub struct ModifierRoll {
    pub inner_result: Box<SubRoll>,
    pub modifier: Value,
}

impl ModifierRoll {
    /// The model of the roll.
    pub open spec fn view(&self) -> RollView {
        RollView::Modifier { inner: Box::new(self.inner_result.view()), modifier: self.modifier }
    }

    /// The roll `inner_result` with `modifier` added.
    pub fn new(inner_result: SubRoll, modifier: Value) -> (r: ModifierRoll)
        ensures
            *r.inner_result == inner_result,
            r.modifier == modifier,
    {
        ModifierRoll { inner_result: Box::new(inner_result), modifier }
    }

    /// The trace: the inner trace, ` + ` and the modifier in the format of
    /// its unit.
    pub fn intermediate_results(&self) -> (s: String)
        ensures
            s@ == self.view().trace(),
        decreases self,
    {
        let mut out = self.inner_result.inner_intermediate_results();
        out.append(" + ");
        out.append(self.modifier.output().as_str());
        out
    }

    /// The final result: the listing of the totals.
    pub fn final_result(&self) -> (s: String)
        ensures
            s@ == self.view().final_text(),
    {
        self.totals().to_string()
    }

    /// A roll with a modifier is always simple.
    pub fn is_simple(&self) -> (b: bool)
        ensures
            b,
            b == self.view().is_simple(),
    {
        true
    }

    /// The single dice of the inner roll.
    pub fn rolled_faces(&self) -> (v: Vec<DieRoll>)
        ensures
            die_views_of(v@) == self.view().leaves(),
        decreases self,
    {
        self.inner_result.rolled_faces()
    }

    /// The totals of the inner roll with the modifier added.
    pub fn totals(&self) -> (v: Values)
        ensures
            v@ == self.view().totals(),
        decreases self,
    {
        let mut out = self.inner_result.totals();
        out.add_value(self.modifier.clone());
        out
    }
}

/// A roller with a constant value added to every roll. The modifier draws
/// nothing from the random stream.
#[derive(Debug)]
pub struct ModifierRoller {
    pub roller: SubRoller,
    pub modifier: Value,
}

impl ModifierRoller {
    /// Whether the roller can be rolled: the roller inside can.
    pub open spec fn wf(&self) -> bool
        decreases self,
    {
        self.roller.wf()
    }

    /// A roller with a modifier is simple.
    pub open spec fn spec_is_simple(&self) -> bool {
        true
    }

    /// The description: the roller inside, ` + ` and the modifier.
    pub open spec fn description_text(&self) -> Seq<char>
        decreases self,
    {
        self.roller.inner_description_text() + " + "@ + self.modifier.text()
    }

    /// What rolling gives when the stream stands at `seed`, and where the
    /// stream stands afterwards.
    pub open spec fn rolled(&self, seed: u64) -> (RollView, u64)
        decreases self,
    {
        (
            RollView::Modifier {
                inner: Box::new(self.roller.rolled(seed).0),
                modifier: self.modifier,
            },
            self.roller.rolled(seed).1,
        )
    }

    /// A handle to `roller` with `modifier` added.
    pub fn new(roller: SubRoller, modifier: Value) -> (r: Rc<ModifierRoller>)
        ensures
            *r == (ModifierRoller { roller, modifier }),
    {
        Rc::new(ModifierRoller { roller, modifier })
    }

    /// Whether the roller can be rolled.
    pub fn can_roll(&self) -> (b: bool)
        ensures
            b == self.wf(),
        decreases self,
    {
        self.roller.can_roll()
    }

    /// The description, such as `d20 + Total: 3`.
    pub fn description(&self) -> (s: String)
        ensures
            s@ == self.description_text(),
        decreases self,
    {
        let mut out = self.roller.inner_description();
        out.append(" + ");
        out.append(self.modifier.to_string().as_str());
        out
    }

    /// A roller with a modifier is always simple, whatever it wraps.
    pub fn is_simple(&self) -> (b: bool)
        ensures
            b,
            b == self.spec_is_simple(),
    {
        true
    }

    /// A roller with a modifier is not a die.
    pub fn is_die(&self) -> (b: bool)
        ensures
            !b,
    {
        false
    }

    /// The description as it stands inside another description: unchanged.
    pub fn inner_description(&self) -> (s: String)
        ensures
            s@ == self.description_text(),
        decreases self, 1nat,
    {
        crate::text::wrapped_text(self.description().as_str(), self.is_simple())
    }

    /// Rolls the roller inside on `rng` and adds the modifier.
    pub fn inner_roll_with(&self, rng: &mut Rng) -> (r: SubRoll)
        requires
            self.wf(),
        ensures
            (r.view(), final(rng).seed()) == self.rolled(old(rng).seed()),
        decreases self,
    {
        let inner_result = self.roller.inner_roll_with(rng);
        SubRoll::Modifier(ModifierRoll::new(inner_result, self.modifier.clone()))
    }
}

/// A roller with a modifier is simple whatever roller it wraps and whatever
/// it adds, and so is every roll of it.
pub proof fn law_modifier_is_simple(roller: &Rc<ModifierRoller>, seed: u64)
    ensures
        roller.spec_is_simple(),
        roller.rolled(seed).0.is_simple(),
        SubRoller::Modifier(*roller).spec_is_simple(),
        SubRoller::Modifier(*roller).rolled(seed).0.is_simple(),
{
}

} // verus!
