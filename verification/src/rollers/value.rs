//! Constants: a roller that gives the same totals every time.

use vstd::prelude::*;
use std::rc::Rc;
use crate::name::Name;
use crate::random::Rng;
use crate::rollers::view::RollView;
use crate::rollers::{die_views_of, DieRoll, SubRoll, SubRoller};
use crate::value::{listing, Value, Values};

verus! {

/// The name as a text, if there is one.
pub open spec fn name_text(name: Option<Name>) -> Option<Seq<char>> {
    match name {
        Some(name) => Some(name@),
        None => None,
    }
}

/// The result of rolling a constant.
#[derive(Debug)]
pub struct ValueRoll {
    pub name: Option<Name>,
    pub value: Values,
}

impl ValueRoll {
    /// The model of the roll.
    pub open spec fn view(&self) -> RollView {
        RollView::Constant { name: name_text(self.name), values: self.value@ }
    }

    /// The roll of the constant `value`, shown as `name` if there is one.
    pub fn new(name: Option<Name>, value: Values) -> (r: ValueRoll)
        ensures
            r.name == name,
            r.value == value,
    {
        ValueRoll { name, value }
    }

    /// The trace: the name, or the listing of the values where there is none.
    pub fn intermediate_results(&self) -> (s: String)
        ensures
            s@ == self.view().trace(),
    {
        match &self.name {
            Some(name) => name.to_string(),
            None => self.value.to_string(),
        }
    }

    /// The final result, which is the trace.
    pub fn final_result(&self) -> (s: String)
        ensures
            s@ == self.view().final_text(),
    {
        self.intermediate_results()
    }

    /// A constant is simple when it has a name.
    pub fn is_simple(&self) -> (b: bool)
        ensures
            b == self.name is Some,
            b == self.view().is_simple(),
    {
        self.name.is_some()
    }

    /// No die was rolled.
    pub fn rolled_faces(&self) -> (v: Vec<DieRoll>)
        ensures
            v@.len() == 0,
            die_views_of(v@) == self.view().leaves(),
    {
        let out: Vec<DieRoll> = Vec::new();
        out
    }

    /// The totals: the values of the constant.
    pub fn totals(&self) -> (v: Values)
        ensures
            v@ == self.view().totals(),
    {
        self.value.clone()
    }
}

/// A roller that gives the same totals every time: a flat bonus or malus.
///
/// A name is recommended where the constant holds more than one value:
/// without one the constant is shown as the listing of its values.
#[derive(Debug)]
pub struct ValueRoller {
    pub name: Option<Name>,
    pub values: Values,
}

impl ValueRoller {
    /// The description: the name, or the listing of the values where there
    /// is none.
    pub open spec fn description_text(&self) -> Seq<char> {
        match self.name {
            Some(name) => name@,
            None => listing(self.values@),
        }
    }

    /// What rolling gives: the constant. The stream is left where it stands.
    pub open spec fn rolled(&self) -> RollView {
        RollView::Constant { name: name_text(self.name), values: self.values@ }
    }

    /// A handle to the constant `value`, shown as `name`.
    pub fn named(name: Name, value: Values) -> (r: Rc<ValueRoller>)
        ensures
            *r == (ValueRoller { name: Some(name), values: value }),
    {
        Rc::new(ValueRoller { name: Some(name), values: value })
    }

    /// A handle to the constant `value`, without a name.
    pub fn unnamed(value: Values) -> (r: Rc<ValueRoller>)
        ensures
            *r == (ValueRoller { name: None, values: value }),
    {
        Rc::new(ValueRoller { name: None, values: value })
    }

    /// The description: the name, or the listing of the values.
    pub fn description(&self) -> (s: String)
        ensures
            s@ == self.description_text(),
    {
        match &self.name {
            Some(name) => name.to_string(),
            None => self.values.to_string(),
        }
    }

    /// A constant is simple when it has a name.
    pub fn is_simple(&self) -> (b: bool)
        ensures
            b == self.name is Some,
    {
        self.name.is_some()
    }

    /// A constant is not a die.
    pub fn is_die(&self) -> (b: bool)
        ensures
            !b,
    {
        false
    }

    /// The description as it stands inside another description.
    pub fn inner_description(&self) -> (s: String)
        ensures
            s@ == crate::text::wrapped(self.description_text(), self.name is Some),
    {
        crate::text::wrapped_text(self.description().as_str(), self.is_simple())
    }

    /// Gives the constant; `rng` is left as it is.
    pub fn inner_roll_with(&self, rng: &mut Rng) -> (r: SubRoll)
        ensures
            r.view() == self.rolled(),
            final(rng).seed() == old(rng).seed(),
    {
        let name = match &self.name {
            Some(name) => Some(name.clone()),
            None => None,
        };
        SubRoll::Value(ValueRoll::new(name, self.values.clone()))
    }
}

impl Value {
    /// The constant roller of this value, without a name.
    pub fn to_roller(self) -> (r: SubRoller)
        ensures
            r matches SubRoller::Value(v) && v.name is None && v.values@ == seq![self],
    {
        Values::from_value(self).to_roller()
    }

    /// The constant roller of this value, shown as `name`.
    pub fn to_roller_with_name(self, name: Name) -> (r: SubRoller)
        ensures
            r matches SubRoller::Value(v) && v.name == Some(name) && v.values@ == seq![self],
    {
        Values::from_value(self).to_roller_with_name(name)
    }
}

impl Values {
    /// The constant roller of these totals, without a name.
    pub fn to_roller(self) -> (r: SubRoller)
        ensures
            r matches SubRoller::Value(v) && v.name is None && v.values == self,
    {
        SubRoller::Value(ValueRoller::unnamed(self))
    }

    /// The constant roller of these totals, shown as `name`.
    pub fn to_roller_with_name(self, name: Name) -> (r: SubRoller)
        ensures
            r matches SubRoller::Value(v) && v.name == Some(name) && v.values == self,
    {
        SubRoller::Value(ValueRoller::named(name, self))
    }
}

} // verus!
