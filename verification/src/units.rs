//! Units: the categories that totals are counted in, and how a total is
//! written out.

use vstd::prelude::*;
use std::rc::Rc;
use crate::name::Name;
use crate::random::new_id;
use crate::text::{decimal, decimal_text, replace_text, replaced};
use vstd::string::StringExecFns;

pub mod tiered;

pub use tiered::{Tier, TieredUnit};

verus! {

/// The absolute value of `n`.
pub open spec fn magnitude(n: int) -> int {
    if n < 0 {
        -n
    } else {
        n
    }
}

/// `format` with every `{|}` replaced by the absolute value of `total`, then
/// every `{}` by `total` itself.
pub open spec fn formatted(format: Seq<char>, total: int) -> Seq<char> {
    replaced(replaced(format, "{|}"@, decimal(magnitude(total))), "{}"@, decimal(total))
}

/// Fills `total` into `format`.
pub fn format_total(format: &str, total: i32) -> (s: String)
    ensures
        s@ == formatted(format@, total as int),
{
    let absolute: i64 = if total < 0 {
        -(total as i64)
    } else {
        total as i64
    };
    let absolute_text = decimal_text(absolute);
    let total_text = decimal_text(total as i64);
    proof {
        reveal_strlit("{|}");
        reveal_strlit("{}");
    }
    let first = replace_text(format, "{|}", absolute_text.as_str());
    replace_text(first.as_str(), "{}", total_text.as_str())
}

/// The unit of plain numeric dice: its id is 0 and a total is written as the
/// bare number.
#[derive(Debug)]
pub struct DNumUnit;

impl DNumUnit {
    /// A handle to the plain numeric unit.
    pub fn new() -> (r: Rc<Unit>)
        ensures
            *r == Unit::DNum(DNumUnit),
    {
        Rc::new(Unit::DNum(DNumUnit))
    }
}

/// A unit with one output format.
///
/// In the format `{}` stands for the total and `{|}` for its absolute value.
/// With `ignore_zero` a total of zero is written as the empty text.
#[derive(Debug)]
pub struct BasicUnit {
    id: u64,
    name: Name,
    output_format: String,
    ignore_zero: bool,
}

impl BasicUnit {
    /// The id given at construction.
    pub closed spec fn spec_id(&self) -> u64 {
        self.id
    }

    /// The name given at construction.
    pub closed spec fn label(&self) -> Seq<char> {
        self.name@
    }

    /// The output format given at construction.
    pub closed spec fn format(&self) -> Seq<char> {
        self.output_format@
    }

    /// Whether a total of zero is suppressed.
    pub closed spec fn ignores_zero(&self) -> bool {
        self.ignore_zero
    }

    /// How `total` is written.
    pub open spec fn spec_output_for(&self, total: i32) -> Seq<char> {
        if total == 0 && self.ignores_zero() {
            Seq::empty()
        } else {
            formatted(self.format(), total as int)
        }
    }

    /// A handle to a new basic unit, with an id of its own taken from the
    /// clock.
    pub fn new(name: Name, output_format: &str, ignore_zero: bool) -> (r: Rc<Unit>)
        ensures
            *r matches Unit::Basic(u) && u.label() == name@ && u.format() == output_format@
                && u.ignores_zero() == ignore_zero,
    {
        Self::rebuild(new_id(), name, String::from_str(output_format), ignore_zero)
    }

    /// A handle to the basic unit with the id `id`: a unit made of its stored
    /// parts.
    pub fn rebuild(id: u64, name: Name, output_format: String, ignore_zero: bool) -> (r: Rc<Unit>)
        ensures
            *r matches Unit::Basic(u) && u.spec_id() == id && u.label() == name@ && u.format()
                == output_format@ && u.ignores_zero() == ignore_zero,
    {
        Rc::new(Unit::Basic(BasicUnit { id, name, output_format, ignore_zero }))
    }

    /// The id of the unit.
    pub fn id(&self) -> (r: u64)
        ensures
            r == self.spec_id(),
    {
        self.id
    }

    /// Writes `total` in this unit; the empty text means that nothing is shown.
    pub fn output_for(&self, total: i32) -> (s: String)
        ensures
            s@ == self.spec_output_for(total),
    {
        if total == 0 && self.ignore_zero {
            String::new()
        } else {
            format_total(self.output_format.as_str(), total)
        }
    }

    /// The name of the unit.
    pub fn to_string(&self) -> (s: String)
        ensures
            s@ == self.label(),
    {
        self.name.to_string()
    }
}

/// A category of outcome. Two units are the same unit when their ids are equal.
#[derive(Debug)]
pub enum Unit {
    /// The plain numeric unit.
    DNum(DNumUnit),
    /// A unit with one output format.
    Basic(BasicUnit),
    /// A unit whose output format depends on the range the total falls in.
    Tiered(TieredUnit),
}

impl Unit {
    /// The id that identifies the unit.
    pub open spec fn spec_id(&self) -> u64 {
        match self {
            Unit::DNum(_) => 0,
            Unit::Basic(u) => u.spec_id(),
            Unit::Tiered(u) => u.spec_id(),
        }
    }

    /// How `total` is written in this unit.
    pub open spec fn spec_output_for(&self, total: i32) -> Seq<char> {
        match self {
            Unit::DNum(_) => decimal(total as int),
            Unit::Basic(u) => u.spec_output_for(total),
            Unit::Tiered(u) => u.spec_output_for(total),
        }
    }

    /// The name the unit is shown under.
    pub open spec fn label(&self) -> Seq<char> {
        match self {
            Unit::DNum(_) => "Total"@,
            Unit::Basic(u) => u.label(),
            Unit::Tiered(u) => u.label(),
        }
    }

    /// The id that identifies the unit.
    pub fn id(&self) -> (r: u64)
        ensures
            r == self.spec_id(),
    {
        match self {
            Unit::DNum(_) => 0,
            Unit::Basic(u) => u.id(),
            Unit::Tiered(u) => u.id(),
        }
    }

    /// Writes `total` in this unit. The empty text means that the line is
    /// left out of a listing of totals.
    pub fn output_for(&self, total: i32) -> (s: String)
        ensures
            s@ == self.spec_output_for(total),
    {
        match self {
            Unit::DNum(_) => decimal_text(total as i64),
            Unit::Basic(u) => u.output_for(total),
            Unit::Tiered(u) => u.output_for(total),
        }
    }

    /// The name the unit is shown under.
    pub fn to_string(&self) -> (s: String)
        ensures
            s@ == self.label(),
    {
        match self {
            Unit::DNum(_) => String::from_str("Total"),
            Unit::Basic(u) => u.to_string(),
            Unit::Tiered(u) => u.to_string(),
        }
    }
}

impl PartialEq for Unit {
    fn eq(&self, other: &Unit) -> (r: bool) {
        self.id() == other.id()
    }
}

impl vstd::std_specs::cmp::PartialEqSpecImpl for Unit {
    open spec fn obeys_eq_spec() -> bool {
        true
    }

    open spec fn eq_spec(&self, other: &Unit) -> bool {
        self.spec_id() == other.spec_id()
    }
}

} // verus!
