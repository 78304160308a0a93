//! The die of Hibernation: three sides with a plus, two with a minus and a
//! blank.

use vstd::prelude::*;
use std::rc::Rc;
use crate::dice::{Die, Face};
use crate::premade::{lemma_ascii_name, name, shows, writes_one};
use crate::random::new_id;
use crate::share::share;
use crate::units::{BasicUnit, Unit};
use crate::value::Value;
use vstd::string::StringExecFns;

verus! {

/// Whether `die` is the Hibernation die that counts in `unit`, the unit of
/// successes.
pub open spec fn is_hibernation(unit: Rc<Unit>, die: Die) -> bool {
    &&& unit.label() == "Successes"@
    &&& writes_one(unit, "{} Successes"@, false)
    &&& die.name@ == "Hibernation"@
    &&& die.explode_on is None
    &&& die.wf()
    &&& die.faces@.len() == 6
    &&& forall|i: int|
        0 <= i < 3 ==> shows(*#[trigger] die.faces@[i], "+"@, seq![Value { unit, value: 1 }])
    &&& forall|i: int|
        3 <= i < 5 ==> shows(*#[trigger] die.faces@[i], "-"@, seq![Value { unit, value: -1i32 }])
    &&& shows(*die.faces@[5], "_"@, seq![Value { unit, value: 0 }])
}

/// The unit of successes, with an id of its own taken from the clock, and
/// the Hibernation die that counts in it.
pub fn build() -> (r: (Rc<Unit>, Rc<Die>))
    ensures
        is_hibernation(r.0, *r.1),
{
    build_with_id(new_id())
}

/// The unit of successes, with the id `id`, and the Hibernation die that
/// counts in it.
pub fn build_with_id(id: u64) -> (r: (Rc<Unit>, Rc<Die>))
    ensures
        r.0.spec_id() == id,
        is_hibernation(r.0, *r.1),
{
    let unit = unit(id);
    proof {
        reveal_strlit("Hibernation");
        lemma_ascii_name("Hibernation"@);
    }
    let die = Die::new(name("Hibernation"), faces(&unit));
    (unit, die)
}

fn unit(id: u64) -> (r: Rc<Unit>)
    ensures
        r.spec_id() == id,
        r.label() == "Successes"@,
        writes_one(r, "{} Successes"@, false),
{
    proof {
        reveal_strlit("Successes");
        lemma_ascii_name("Successes"@);
    }
    BasicUnit::rebuild(id, name("Successes"), String::from_str("{} Successes"), false)
}

fn faces(unit: &Rc<Unit>) -> (r: Vec<Rc<Face>>)
    ensures
        r@.len() == 6,
        forall|i: int|
            0 <= i < 3 ==> shows(*#[trigger] r@[i], "+"@, seq![Value { unit: *unit, value: 1 }]),
        forall|i: int|
            3 <= i < 5 ==> shows(
                *#[trigger] r@[i],
                "-"@,
                seq![Value { unit: *unit, value: -1i32 }],
            ),
        shows(*r@[5], "_"@, seq![Value { unit: *unit, value: 0 }]),
{
    proof {
        reveal_strlit("+");
        lemma_ascii_name("+"@);
        reveal_strlit("-");
        lemma_ascii_name("-"@);
    }
    let face_plus = Face::with_one_val(name("+"), Value::new(unit, 1));
    let face_minus = Face::with_one_val(name("-"), Value::new(unit, -1));
    let mut faces: Vec<Rc<Face>> = Vec::with_capacity(6);
    faces.push(share(&face_plus));
    faces.push(share(&face_plus));
    faces.push(share(&face_plus));
    faces.push(share(&face_minus));
    faces.push(share(&face_minus));
    faces.push(Face::blank(unit));
    faces
}

} // verus!
