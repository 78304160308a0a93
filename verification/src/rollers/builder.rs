//! Building a roller step by step.

use vstd::prelude::*;
use std::rc::Rc;
use crate::rollers::{MathRoller, ModifierRoller, PoolRoller, RollerMathType, Strategy, SubRoller};
use crate::units::Unit;
use crate::value::Value;

verus! {

/// A roller under construction: each step wraps the roller built so far.
#[derive(Debug)]
pub struct Builder(pub SubRoller);

impl Builder {
    /// The roller that was built.
    pub fn finish(self) -> (r: SubRoller)
        ensures
            r == self.0,
    {
        self.0
    }

    /// Rolls what was built `n` times and keeps every roll.
    pub fn n_times(self, n: u8) -> (r: Builder)
        ensures
            r.0 matches SubRoller::Pool(p) && *p == (PoolRoller {
                count: n,
                die: self.0,
                strategy: Strategy::KeepAll,
            }),
    {
        Builder(SubRoller::Pool(PoolRoller::basic(self.0, n)))
    }

    /// Rolls what was built `n` times under `strategy`, which must keep a
    /// roll.
    pub fn pool(self, n: u8, strategy: Strategy) -> (r: Builder)
        requires
            strategy.spec_count() < n,
        ensures
            r.0 matches SubRoller::Pool(p) && *p == (PoolRoller {
                count: n,
                die: self.0,
                strategy,
            }),
    {
        Builder(SubRoller::Pool(PoolRoller::new(self.0, n, strategy).unwrap()))
    }

    /// Adds `value` of `relationship` to every roll of what was built.
    pub fn with_modifier(self, relationship: Rc<Unit>, value: i32) -> (r: Builder)
        ensures
            r.0 matches SubRoller::Modifier(m) && *m == (ModifierRoller {
                roller: self.0,
                modifier: Value { unit: relationship, value },
            }),
    {
        let modifier = Value { unit: relationship, value };
        Builder(SubRoller::Modifier(ModifierRoller::new(self.0, modifier)))
    }

    /// Adds the rolls of `rhs` to what was built.
    pub fn plus(self, rhs: SubRoller) -> (r: Builder)
        ensures
            r.0 matches SubRoller::Math(m) && m.inner@ == seq![
                RollerMathType::First(self.0),
                RollerMathType::Add(rhs),
            ],
    {
        Builder(SubRoller::Math(MathRoller::add(self.0, rhs)))
    }

    /// Adds `rhs` to every roll of what was built.
    pub fn plus_value(self, rhs: Value) -> (r: Builder)
        ensures
            r.0 matches SubRoller::Modifier(m) && *m == (ModifierRoller {
                roller: self.0,
                modifier: rhs,
            }),
    {
        Builder(SubRoller::Modifier(ModifierRoller::new(self.0, rhs)))
    }

    /// Subtracts the rolls of `rhs` from what was built.
    pub fn minus(self, rhs: SubRoller) -> (r: Builder)
        ensures
            r.0 matches SubRoller::Math(m) && m.inner@ == seq![
                RollerMathType::First(self.0),
                RollerMathType::Subtract(rhs),
            ],
    {
        Builder(SubRoller::Math(MathRoller::subtract(self.0, rhs)))
    }

    /// Subtracts `rhs` from every roll of what was built: adds the value of
    /// opposite sign.
    pub fn minus_value(self, rhs: Value) -> (r: Builder)
        ensures
            r.0 matches SubRoller::Modifier(m) && *m == (ModifierRoller {
                roller: self.0,
                modifier: rhs.negated(),
            }),
    {
        Builder(SubRoller::Modifier(ModifierRoller::new(self.0, rhs.neg())))
    }
}

} // verus!
