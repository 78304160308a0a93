//! Dice and their faces.

use vstd::prelude::*;
use std::rc::Rc;
use crate::name::{name_verdict, Name};
use crate::random::{choose_from, default_rng, index_for, next_seed, Rng};
use crate::units::Unit;
use crate::value::{amount, merged_all, Value, Values};
use vstd::utf8::is_ascii_chars_encode_utf8;

verus! {

/// How deep explosions nest by default: a reroll that an explosion at this
/// depth has caused explodes no further.
pub const DEFAULT_EXPLOSION_DEPTH: u8 = 255;

/// A die: a name and its faces in order. A face may stand on several sides:
/// then it is listed several times.
///
/// A die that explodes names the unit that triggers it: a face that holds an
/// amount for that unit is rolled again that many times, and the rerolls are
/// added in. A reroll may explode in its turn, but explosions nest at most
/// `explosion_depth` deep: a die whose every face explodes thus still comes
/// to rest. How often a face is rolled again is up to the author of the die.
#[derive(Clone, Debug)]
pub struct Die {
    pub name: Name,
    pub faces: Vec<Rc<Face>>,
    pub explode_on: Option<Rc<Unit>>,
    pub explosion_depth: u8,
}

impl Die {
    /// A handle to a die that does not explode.
    pub fn new(name: Name, faces: Vec<Rc<Face>>) -> (r: Rc<Die>)
        ensures
            r.name == name,
            r.faces == faces,
            r.explode_on is None,
            r.explosion_depth == DEFAULT_EXPLOSION_DEPTH,
    {
        Rc::new(Die { name, faces, explode_on: None, explosion_depth: DEFAULT_EXPLOSION_DEPTH })
    }

    /// The same die, exploding on `explode_on`.
    pub fn exploding_on(self, explode_on: Rc<Unit>) -> (r: Die)
        ensures
            r == (Die { explode_on: Some(explode_on), ..self }),
    {
        let mut die = self;
        die.explode_on = Some(explode_on);
        die
    }

    /// The same die, with explosions nesting at most `depth` deep. With a
    /// depth of 0 the die does not explode.
    pub fn with_explosion_depth(self, depth: u8) -> (r: Die)
        ensures
            r == (Die { explosion_depth: depth, ..self }),
    {
        let mut die = self;
        die.explosion_depth = depth;
        die
    }

    /// Whether the die can be rolled: it has a face.
    pub open spec fn wf(&self) -> bool {
        self.faces@.len() > 0
    }

    /// Whether the die can be rolled: it has a face.
    pub fn can_roll(&self) -> (b: bool)
        ensures
            b == self.wf(),
    {
        self.faces.len() > 0
    }

    /// The face that comes up when the stream stands at `seed`.
    pub open spec fn face_at(&self, seed: u64) -> Face {
        *self.faces@[index_for(next_seed(seed), self.faces.len())]
    }

    /// Rolls the die and returns the face that is up.
    pub fn roll_face_with(&self, rng: &mut Rng) -> (r: Rc<Face>)
        requires
            self.wf(),
        ensures
            final(rng).seed() == next_seed(old(rng).seed()),
            *r == self.face_at(old(rng).seed()),
    {
        choose_from(&self.faces, rng)
    }

    /// Rolls the die on a generator seeded from the clock and returns the
    /// face that is up: one of the faces of the die.
    pub fn roll_face(&self) -> (r: Rc<Face>)
        requires
            self.wf(),
        ensures
            exists|seed: u64| *r == #[trigger] self.face_at(seed),
    {
        let mut rng = default_rng();
        self.roll_face_with(&mut rng)
    }

    /// The name of the die.
    pub fn to_string(&self) -> (s: String)
        ensures
            s@ == self.name@,
    {
        self.name.to_string()
    }
}

fn name(text: &str) -> (r: Name)
    requires
        name_verdict(text@) is None,
    ensures
        r@ == text@,
{
    Name::new(text).unwrap()
}

/// A face of a die: a short label to show, and what the face is worth.
#[derive(Clone, Debug)]
pub struct Face {
    pub label: Name,
    pub values: Values,
}

impl Face {
    /// A handle to a face worth `values`; amounts of the same unit are summed.
    pub fn new(label: Name, values: Vec<Value>) -> (r: Rc<Face>)
        ensures
            r.label == label,
            r.values@ == merged_all(Seq::empty(), values@),
    {
        Rc::new(Face { label, values: Values::from_values(values) })
    }

    /// A handle to a face worth one value.
    pub fn with_one_val(label: Name, value: Value) -> (r: Rc<Face>)
        ensures
            r.label == label,
            r.values@ == seq![value],
    {
        Rc::new(Face { label, values: Values::from_value(value) })
    }

    /// A handle to a face worth two values, summed if they are of one unit.
    pub fn with_two_vals(label: Name, val1: Value, val2: Value) -> (r: Rc<Face>)
        ensures
            r.label == label,
            r.values@ == merged_all(Seq::empty(), seq![val1, val2]),
    {
        let mut values: Vec<Value> = Vec::with_capacity(2);
        values.push(val1);
        values.push(val2);
        assert(values@ =~= seq![val1, val2]);
        Self::new(label, values)
    }

    /// A handle to a face labelled `_` that is worth 0 of `unit`.
    pub fn blank(unit: &Rc<Unit>) -> (r: Rc<Face>)
        ensures
            r.label@ == "_"@,
            r.values@ == seq![Value { unit: *unit, value: 0 }],
    {
        proof {
            reveal_strlit("_");
            is_ascii_chars_encode_utf8("_"@);
        }
        Self::with_one_val(name("_"), Value::new(unit, 0))
    }

    /// The amount the face holds for `unit`, if any.
    pub fn value_for(&self, unit: &Rc<Unit>) -> (r: Option<i32>)
        ensures
            r == amount(self.values@, unit.spec_id()),
    {
        self.values.value_for(unit)
    }

    /// The label of the face.
    pub fn to_string(&self) -> (s: String)
        ensures
            s@ == self.label@,
    {
        self.label.to_string()
    }
}

} // verus!
