//! Units whose wording depends on the range a total falls in.

use vstd::prelude::*;
use std::ops::RangeInclusive;
use std::rc::Rc;
use crate::name::Name;
use crate::random::new_id;
use crate::units::{format_total, formatted, Unit};
use vstd::string::StringExecFns;

verus! {

/// One range of totals and the format used inside it.
#[derive(Debug)]
pub struct Tier {
    pub range: RangeInclusive<i32>,
    pub output_format: String,
}

impl Tier {
    /// Whether `total` lies in the range of the tier.
    pub open spec fn spec_contains(&self, total: i32) -> bool {
        self.range@.start <= total && if self.range@.exhausted {
            total < self.range@.end
        } else {
            total <= self.range@.end
        }
    }

    /// How the tier writes `total`.
    pub open spec fn spec_output_for(&self, total: i32) -> Seq<char> {
        formatted(self.output_format@, total as int)
    }

    /// A tier for the totals from `low` to `high`, both included.
    pub fn new(low: i32, high: i32, output_format: &str) -> (r: Tier)
        ensures
            r.range@.start == low,
            r.range@.end == high,
            !r.range@.exhausted,
            r.output_format@ == output_format@,
    {
        Tier {
            range: RangeInclusive::new(low, high),
            output_format: String::from_str(output_format),
        }
    }

    /// Whether `total` lies in the range of the tier.
    pub fn contains(&self, total: i32) -> (b: bool)
        ensures
            b == self.spec_contains(total),
    {
        self.range.contains(&total)
    }

    /// Writes `total` in the format of the tier.
    pub fn output_for(&self, total: i32) -> (s: String)
        ensures
            s@ == self.spec_output_for(total),
    {
        format_total(self.output_format.as_str(), total)
    }
}

/// What the first tier of `tiers` that contains `total` writes for it; the
/// empty text when none contains it.
pub open spec fn tiered_output(tiers: Seq<Tier>, total: i32) -> Seq<char>
    decreases tiers.len(),
{
    if tiers.len() == 0 {
        Seq::empty()
    } else if tiers[0].spec_contains(total) {
        tiers[0].spec_output_for(total)
    } else {
        tiered_output(tiers.drop_first(), total)
    }
}

/// A unit that words a total by the first of its tiers that contains it.
///
/// A unit for successes may say "failure" from the lowest total up to 0 and
/// "{} successes" above; `{|}` in a format stands for the absolute value.
#[derive(Debug)]
pub struct TieredUnit {
    id: u64,
    name: Name,
    tiers: Vec<Tier>,
}

impl TieredUnit {
    /// The id given at construction.
    pub closed spec fn spec_id(&self) -> u64 {
        self.id
    }

    /// The name given at construction.
    pub closed spec fn label(&self) -> Seq<char> {
        self.name@
    }

    /// The tiers given at construction, in their order.
    pub closed spec fn tiers(&self) -> Seq<Tier> {
        self.tiers@
    }

    /// How `total` is written.
    pub open spec fn spec_output_for(&self, total: i32) -> Seq<char> {
        tiered_output(self.tiers(), total)
    }

    /// A handle to a new tiered unit, with an id of its own taken from the
    /// clock.
    pub fn new(name: Name, tiers: Vec<Tier>) -> (r: Rc<Unit>)
        ensures
            *r matches Unit::Tiered(u) && u.label() == name@ && u.tiers() == tiers@,
    {
        Self::rebuild(new_id(), name, tiers)
    }

    /// A new unit, with an id of its own, that has one format for totals
    /// above zero, one for zero and one for totals below zero.
    pub fn pos_zero_neg(name: Name, pos_fmt: &str, zero_fmt: &str, neg_fmt: &str) -> (r: Rc<Unit>)
        ensures
            *r matches Unit::Tiered(u) && u.label() == name@,
            forall|total: i32|
                #[trigger] r.spec_output_for(total) == formatted(
                    if total < 0 {
                        neg_fmt@
                    } else if total == 0 {
                        zero_fmt@
                    } else {
                        pos_fmt@
                    },
                    total as int,
                ),
    {
        Self::pos_zero_neg_with_id(new_id(), name, pos_fmt, zero_fmt, neg_fmt)
    }

    /// A new unit, with an id of its own, that has one format for totals
    /// above zero and one for totals below zero; a total of zero is written
    /// as the empty text.
    pub fn pos_neg(name: Name, pos_fmt: &str, neg_fmt: &str) -> (r: Rc<Unit>)
        ensures
            *r matches Unit::Tiered(u) && u.label() == name@,
            forall|total: i32|
                #[trigger] r.spec_output_for(total) == if total < 0 {
                    formatted(neg_fmt@, total as int)
                } else if total == 0 {
                    Seq::<char>::empty()
                } else {
                    formatted(pos_fmt@, total as int)
                },
    {
        Self::pos_neg_with_id(new_id(), name, pos_fmt, neg_fmt)
    }

    /// The unit with the id `id` that has one format for totals above zero,
    /// one for zero and one for totals below zero.
    pub fn pos_zero_neg_with_id(
        id: u64,
        name: Name,
        pos_fmt: &str,
        zero_fmt: &str,
        neg_fmt: &str,
    ) -> (r: Rc<Unit>)
        ensures
            *r matches Unit::Tiered(u) && u.spec_id() == id && u.label() == name@,
            forall|total: i32|
                #[trigger] r.spec_output_for(total) == formatted(
                    if total < 0 {
                        neg_fmt@
                    } else if total == 0 {
                        zero_fmt@
                    } else {
                        pos_fmt@
                    },
                    total as int,
                ),
    {
        let mut tiers: Vec<Tier> = Vec::new();
        tiers.push(Tier::new(i32::MIN, -1, neg_fmt));
        tiers.push(Tier::new(0, 0, zero_fmt));
        tiers.push(Tier::new(1, i32::MAX, pos_fmt));
        proof {
            assert forall|total: i32|
                #[trigger] tiered_output(tiers@, total) == formatted(
                    if total < 0 {
                        neg_fmt@
                    } else if total == 0 {
                        zero_fmt@
                    } else {
                        pos_fmt@
                    },
                    total as int,
                ) by {
                reveal_with_fuel(tiered_output, 4);
            }
        }
        Self::rebuild(id, name, tiers)
    }

    /// The unit with the id `id` that has one format for totals above zero
    /// and one for totals below zero; a total of zero is written as the empty
    /// text.
    pub fn pos_neg_with_id(id: u64, name: Name, pos_fmt: &str, neg_fmt: &str) -> (r: Rc<Unit>)
        ensures
            *r matches Unit::Tiered(u) && u.spec_id() == id && u.label() == name@,
            forall|total: i32|
                #[trigger] r.spec_output_for(total) == if total < 0 {
                    formatted(neg_fmt@, total as int)
                } else if total == 0 {
                    Seq::<char>::empty()
                } else {
                    formatted(pos_fmt@, total as int)
                },
    {
        let mut tiers: Vec<Tier> = Vec::new();
        tiers.push(Tier::new(i32::MIN, -1, neg_fmt));
        tiers.push(Tier::new(1, i32::MAX, pos_fmt));
        proof {
            assert forall|total: i32|
                #[trigger] tiered_output(tiers@, total) == if total < 0 {
                    formatted(neg_fmt@, total as int)
                } else if total == 0 {
                    Seq::<char>::empty()
                } else {
                    formatted(pos_fmt@, total as int)
                } by {
                reveal_with_fuel(tiered_output, 3);
            }
        }
        Self::rebuild(id, name, tiers)
    }

    /// A handle to the tiered unit with the id `id`: a unit made of its stored
    /// parts.
    pub fn rebuild(id: u64, name: Name, tiers: Vec<Tier>) -> (r: Rc<Unit>)
        ensures
            *r matches Unit::Tiered(u) && u.spec_id() == id && u.label() == name@ && u.tiers()
                == tiers@,
    {
        Rc::new(Unit::Tiered(TieredUnit { id, name, tiers }))
    }

    /// The id of the unit.
    pub fn id(&self) -> (r: u64)
        ensures
            r == self.spec_id(),
    {
        self.id
    }

    /// Writes `total` in the format of the first tier that contains it; the
    /// empty text when no tier does.
    pub fn output_for(&self, total: i32) -> (s: String)
        ensures
            s@ == self.spec_output_for(total),
    {
        let mut i: usize = 0;
        assert(self.tiers@.skip(0) =~= self.tiers@);
        while i < self.tiers.len()
            invariant
                i <= self.tiers.len(),
                tiered_output(self.tiers@, total) == tiered_output(
                    self.tiers@.skip(i as int),
                    total,
                ),
            decreases self.tiers.len() - i,
        {
            let rest = Ghost(self.tiers@.skip(i as int));
            assert(rest@.drop_first() =~= self.tiers@.skip(i + 1));
            if self.tiers[i].contains(total) {
                return self.tiers[i].output_for(total);
            }
            i += 1;
        }
        String::new()
    }

    /// The name of the unit.
    pub fn to_string(&self) -> (s: String)
        ensures
            s@ == self.label(),
    {
        self.name.to_string()
    }
}

} // verus!
