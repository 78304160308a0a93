//! The die of Fate: a plus, a minus and a blank.

use vstd::prelude::*;
use std::rc::Rc;
use crate::dice::{Die, Face};
use crate::premade::{lemma_ascii_name, name, shows, writes_one};
use crate::random::new_id;
use crate::share::share;
use crate::units::{BasicUnit, Unit};
use crate::value::Value;
use vstd::string::StringExecFns;

verus! {

/// Whether `die` is the Fate die that counts in `unit`, the unit of shifts.
pub open spec fn is_fate(unit: Rc<Unit>, die: Die) -> bool {
    &&& unit.label() == "Shifts"@
    &&& writes_one(unit, "{} Shifts"@, false)
    &&& die.name@ == "Fate"@
    &&& die.explode_on is None
    &&& die.wf()
    &&& die.faces@.len() == 3
    &&& shows(*die.faces@[0], "+"@, seq![Value { unit, value: 1 }])
    &&& shows(*die.faces@[1], "-"@, seq![Value { unit, value: -1i32 }])
    &&& shows(*die.faces@[2], "_"@, seq![Value { unit, value: 0 }])
}

/// The unit of shifts, with an id of its own taken from the clock, and the
/// Fate die that counts in it.
pub fn build() -> (r: (Rc<Unit>, Rc<Die>))
    ensures
        is_fate(r.0, *r.1),
{
    build_with_id(new_id())
}

/// The unit of shifts, with the id `id`, and the Fate die that counts in it.
pub fn build_with_id(id: u64) -> (r: (Rc<Unit>, Rc<Die>))
    ensures
        r.0.spec_id() == id,
        is_fate(r.0, *r.1),
{
    let unit = unit(id);
    proof {
        reveal_strlit("Fate");
        lemma_ascii_name("Fate"@);
    }
    let die = Die::new(name("Fate"), faces(&unit));
    (unit, die)
}

fn unit(id: u64) -> (r: Rc<Unit>)
    ensures
        r.spec_id() == id,
        r.label() == "Shifts"@,
        writes_one(r, "{} Shifts"@, false),
{
    proof {
        reveal_strlit("Shifts");
        lemma_ascii_name("Shifts"@);
    }
    BasicUnit::rebuild(id, name("Shifts"), String::from_str("{} Shifts"), false)
}

fn faces(unit: &Rc<Unit>) -> (r: Vec<Rc<Face>>)
    ensures
        r@.len() == 3,
        shows(*r@[0], "+"@, seq![Value { unit: *unit, value: 1 }]),
        shows(*r@[1], "-"@, seq![Value { unit: *unit, value: -1i32 }]),
        shows(*r@[2], "_"@, seq![Value { unit: *unit, value: 0 }]),
{
    proof {
        reveal_strlit("+");
        lemma_ascii_name("+"@);
        reveal_strlit("-");
        lemma_ascii_name("-"@);
    }
    let face_plus = Face::with_one_val(name("+"), Value::new(unit, 1));
    let face_minus = Face::with_one_val(name("-"), Value::new(unit, -1));
    let face_blank = Face::blank(unit);
    let mut faces: Vec<Rc<Face>> = Vec::with_capacity(3);
    faces.push(share(&face_plus));
    faces.push(share(&face_minus));
    faces.push(share(&face_blank));
    faces
}

} // verus!
