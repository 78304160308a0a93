//! Dice of well-known games, ready to roll.
//!
//! The ids of the units come from the caller, who sees to it that units meant
//! to differ get different ids.

pub mod fate;
pub mod hibernation;
pub mod star_wars;
pub mod warhammer;

use vstd::prelude::*;
use std::rc::Rc;
use crate::dice::{Die, Face};
use crate::name::{is_blank_char, name_verdict, Name};
use crate::units::Unit;
use crate::value::{merged_all, Value};
use vstd::utf8::{is_ascii_chars, is_ascii_chars_encode_utf8};

verus! {

/// A text of 1 to 35 ASCII characters that does not start with white space is
/// a name.
pub proof fn lemma_ascii_name(s: Seq<char>)
    requires
        0 < s.len() <= 35,
        is_ascii_chars(s),
        !is_blank_char(s[0]),
    ensures
        name_verdict(s) is None,
{
    is_ascii_chars_encode_utf8(s);
}

/// The name that reads `text`.
pub(crate) fn name(text: &str) -> (r: Name)
    requires
        name_verdict(text@) is None,
    ensures
        r@ == text@,
{
    Name::new(text).unwrap()
}

/// What a side of a die is: its label and what it is worth.
pub type FaceSpec = (Seq<char>, Seq<Value>);

/// The worth of a side with one value.
pub open spec fn one(unit: Rc<Unit>, value: i32) -> Seq<Value> {
    seq![Value { unit, value }]
}

/// The worth of a side with two values, which are summed if they are of one
/// unit.
pub open spec fn two(unit1: Rc<Unit>, value1: i32, unit2: Rc<Unit>, value2: i32) -> Seq<Value> {
    merged_all(
        Seq::empty(),
        seq![Value { unit: unit1, value: value1 }, Value { unit: unit2, value: value2 }],
    )
}

/// Whether `unit` writes totals in `format`, and no total of zero where
/// `ignore_zero` is set.
pub open spec fn writes_one(unit: Rc<Unit>, format: Seq<char>, ignore_zero: bool) -> bool {
    forall|total: i32|
        #[trigger] unit.spec_output_for(total) == if total == 0 && ignore_zero {
            Seq::<char>::empty()
        } else {
            crate::units::formatted(format, total as int)
        }
}

/// Whether `unit` writes totals above zero in the format `pos`, totals below
/// zero in the format `neg`, and no total of zero.
pub open spec fn writes_two(unit: Rc<Unit>, pos: Seq<char>, neg: Seq<char>) -> bool {
    forall|total: i32|
        #[trigger] unit.spec_output_for(total) == if total < 0 {
            crate::units::formatted(neg, total as int)
        } else if total == 0 {
            Seq::<char>::empty()
        } else {
            crate::units::formatted(pos, total as int)
        }
}

/// Whether `unit` writes totals above zero in the format `pos`, a total of
/// zero in the format `zero` and totals below zero in the format `neg`.
pub open spec fn writes_three(
    unit: Rc<Unit>,
    pos: Seq<char>,
    zero: Seq<char>,
    neg: Seq<char>,
) -> bool {
    forall|total: i32|
        #[trigger] unit.spec_output_for(total) == crate::units::formatted(
            if total < 0 {
                neg
            } else if total == 0 {
                zero
            } else {
                pos
            },
            total as int,
        )
}

/// Whether the sides of `die` are `sides`, in their order.
pub open spec fn has_faces(die: Die, sides: Seq<FaceSpec>) -> bool {
    &&& die.faces@.len() == sides.len()
    &&& forall|i: int|
        0 <= i < sides.len() ==> shows(*#[trigger] die.faces@[i], sides[i].0, sides[i].1)
}

/// Whether `face` bears `label` and is worth `values`.
pub open spec fn shows(face: Face, label: Seq<char>, values: Seq<Value>) -> bool {
    face.label@ == label && face.values@ == values
}

} // verus!
