//! Values: an amount counted in a unit, and `Values`, the totals that every
//! roll adds up to.

use vstd::prelude::*;
use std::rc::Rc;
use crate::share::share;
use crate::text::{decimal, decimal_text, join, joined, lemma_views_push, views};
use crate::units::Unit;
use vstd::string::StringExecFns;

verus! {

/// The number in the range of `i32` that differs from `n` by a multiple of
/// 2^32: what two's complement arithmetic keeps of `n`.
pub open spec fn wrap32(n: int) -> int {
    (n + 0x8000_0000) % 0x1_0000_0000 - 0x8000_0000
}

/// What two's complement keeps of `n`.
pub fn wrap_to_i32(n: i64) -> (r: i32)
    requires
        -0x1_0000_0000 <= n <= 0x1_0000_0000,
    ensures
        r == wrap32(n as int),
{
    if n > i32::MAX as i64 {
        (n - 0x1_0000_0000) as i32
    } else if n < i32::MIN as i64 {
        (n + 0x1_0000_0000) as i32
    } else {
        n as i32
    }
}

/// An amount counted in a unit.
#[derive(Debug)]
pub struct Value {
    pub unit: Rc<Unit>,
    pub value: i32,
}

impl Clone for Value {
    fn clone(&self) -> (r: Self)
        ensures
            r == *self,
    {
        Value { unit: share(&self.unit), value: self.value }
    }
}

impl Value {
    /// The id of the unit the amount is counted in.
    pub open spec fn key(&self) -> u64 {
        self.unit.spec_id()
    }

    /// The same unit with the amount of opposite sign, in two's complement.
    pub open spec fn negated(self) -> Value {
        Value { unit: self.unit, value: wrap32(-self.value) as i32 }
    }

    /// The same unit with `other` added to the amount, in two's complement.
    pub open spec fn plus(self, other: i32) -> Value {
        Value { unit: self.unit, value: wrap32(self.value + other) as i32 }
    }

    /// How the value is written on its own: the unit's name, a colon and the
    /// amount.
    pub open spec fn text(&self) -> Seq<char> {
        self.unit.label() + ": "@ + decimal(self.value as int)
    }

    /// The amount written in the format of the unit.
    pub open spec fn spec_output(&self) -> Seq<char> {
        self.unit.spec_output_for(self.value)
    }

    /// `value` counted in `unit`.
    pub fn new(unit: &Rc<Unit>, value: i32) -> (r: Value)
        ensures
            r == (Value { unit: *unit, value }),
    {
        Value { unit: share(unit), value }
    }

    /// Adds `other` to the amount, in two's complement.
    pub fn add(&mut self, other: i32)
        ensures
            *final(self) == old(self).plus(other),
    {
        self.value = wrap_to_i32(self.value as i64 + other as i64);
    }

    /// Takes `other` from the amount, in two's complement.
    pub fn subtract(&mut self, other: i32)
        ensures
            final(self).unit == old(self).unit,
            final(self).value == wrap32(old(self).value - other),
    {
        self.value = wrap_to_i32(self.value as i64 - other as i64);
    }

    /// Whether both values are counted in the same unit.
    pub fn has_same_unit(&self, other: &Value) -> (b: bool)
        ensures
            b == (self.key() == other.key()),
    {
        self.unit.id() == other.unit.id()
    }

    /// Whether the value is counted in `unit`.
    pub fn is_for_unit(&self, unit: &Rc<Unit>) -> (b: bool)
        ensures
            b == (self.key() == unit.spec_id()),
    {
        self.unit.id() == unit.id()
    }

    /// Writes the amount in the format of the unit.
    pub fn output(&self) -> (s: String)
        ensures
            s@ == self.spec_output(),
    {
        self.unit.output_for(self.value)
    }

    /// Writes the value on its own: the unit's name, a colon and the amount.
    pub fn to_string(&self) -> (s: String)
        ensures
            s@ == self.text(),
    {
        let mut out = self.unit.to_string();
        out.append(": ");
        out.append(decimal_text(self.value as i64).as_str());
        out
    }

    /// The value of opposite sign.
    pub fn neg(self) -> (r: Value)
        ensures
            r == self.negated(),
    {
        Value { unit: self.unit, value: wrap_to_i32(-(self.value as i64)) }
    }
}

impl PartialEq for Value {
    fn eq(&self, other: &Value) -> (r: bool) {
        self.has_same_unit(other) && self.value == other.value
    }
}

impl vstd::std_specs::cmp::PartialEqSpecImpl for Value {
    open spec fn obeys_eq_spec() -> bool {
        true
    }

    open spec fn eq_spec(&self, other: &Value) -> bool {
        self.key() == other.key() && self.value == other.value
    }
}

/// No two entries of `s` are counted in the same unit.
pub open spec fn distinct_keys(s: Seq<Value>) -> bool {
    forall|i: int, j: int|
        0 <= i < j < s.len() ==> (#[trigger] s[i]).key() != (#[trigger] s[j]).key()
}

/// The index of the first entry of `s` counted in the unit `key`; the length
/// of `s` when there is none.
pub open spec fn slot_of(s: Seq<Value>, key: u64) -> int
    decreases s.len(),
{
    if s.len() == 0 {
        0
    } else if s[0].key() == key {
        0
    } else {
        1 + slot_of(s.drop_first(), key)
    }
}

/// The amount that `s` holds for the unit `key`, if it holds one.
pub open spec fn amount(s: Seq<Value>, key: u64) -> Option<i32> {
    if slot_of(s, key) < s.len() {
        Some(s[slot_of(s, key)].value)
    } else {
        None
    }
}

/// The amount that `s` holds for the unit `key`, and 0 when it holds none.
pub open spec fn total(s: Seq<Value>, key: u64) -> int {
    match amount(s, key) {
        Some(v) => v as int,
        None => 0,
    }
}

/// `s` after `v` was added: summed into the entry of the same unit, which
/// keeps its place, or appended when there is no such entry.
pub open spec fn merged(s: Seq<Value>, v: Value) -> Seq<Value> {
    let i = slot_of(s, v.key());
    if i < s.len() {
        s.update(i, s[i].plus(v.value))
    } else {
        s.push(v)
    }
}

/// `s` after the entries of `vs` were added one by one, in their order.
pub open spec fn merged_all(s: Seq<Value>, vs: Seq<Value>) -> Seq<Value>
    decreases vs.len(),
{
    if vs.len() == 0 {
        s
    } else {
        merged(merged_all(s, vs.drop_last()), vs.last())
    }
}

/// Every entry of `s` with the opposite sign.
pub open spec fn negated_all(s: Seq<Value>) -> Seq<Value> {
    s.map_values(|v: Value| v.negated())
}

/// The amounts of `s`, each written in the format of its unit.
pub open spec fn outputs(s: Seq<Value>) -> Seq<Seq<char>> {
    s.map_values(|v: Value| v.spec_output())
}

/// The listing of `s`: one line for each entry.
pub open spec fn listing(s: Seq<Value>) -> Seq<char> {
    joined(outputs(s), "\n"@)
}

/// The sum of the amounts that the entries of `vs` hold for the unit `key`.
pub open spec fn sum_of(vs: Seq<Value>, key: u64) -> int
    decreases vs.len(),
{
    if vs.len() == 0 {
        0
    } else if vs.last().key() == key {
        sum_of(vs.drop_last(), key) + vs.last().value
    } else {
        sum_of(vs.drop_last(), key)
    }
}

/// Two lists of entries agree: as long, and entry for entry the same unit and
/// the same amount.
pub open spec fn same_entries(a: Seq<Value>, b: Seq<Value>) -> bool {
    &&& a.len() == b.len()
    &&& forall|i: int|
        0 <= i < a.len() ==> (#[trigger] a[i]).key() == b[i].key() && a[i].value == b[i].value
}

/// `slot_of` gives a place in `s` or its length; an entry found there is
/// counted in `key`, and no entry before it is.
pub proof fn lemma_slot_of(s: Seq<Value>, key: u64)
    ensures
        0 <= slot_of(s, key) <= s.len(),
        slot_of(s, key) < s.len() ==> s[slot_of(s, key)].key() == key,
        forall|j: int| 0 <= j < slot_of(s, key) ==> (#[trigger] s[j]).key() != key,
    decreases s.len(),
{
    if s.len() > 0 && s[0].key() != key {
        let rest = s.drop_first();
        lemma_slot_of(rest, key);
        assert forall|j: int| 0 <= j < slot_of(s, key) implies (#[trigger] s[j]).key() != key by {
            if j > 0 {
                assert(s[j] == rest[j - 1]);
            }
        }
    }
}

/// The place that is the first of its unit, or the length when no entry is
/// of that unit, is what `slot_of` gives.
pub proof fn lemma_slot_is(s: Seq<Value>, key: u64, i: int)
    requires
        0 <= i <= s.len(),
        i < s.len() ==> s[i].key() == key,
        forall|j: int| 0 <= j < i ==> (#[trigger] s[j]).key() != key,
    ensures
        slot_of(s, key) == i,
{
    lemma_slot_of(s, key);
}

/// Adding a value keeps the units distinct, changes the total of its own unit
/// by its amount and leaves every other total as it was.
pub proof fn lemma_merged(s: Seq<Value>, v: Value, key: u64)
    requires
        distinct_keys(s),
    ensures
        distinct_keys(merged(s, v)),
        total(merged(s, v), key) == if key == v.key() {
            wrap32(total(s, key) + v.value)
        } else {
            total(s, key)
        },
        amount(merged(s, v), key) is Some <==> amount(s, key) is Some || key == v.key(),
{
    let m = merged(s, v);
    let k = slot_of(s, key);
    lemma_slot_of(s, v.key());
    lemma_slot_of(s, key);
    if slot_of(s, v.key()) < s.len() {
        assert forall|a: int| 0 <= a < m.len() implies (#[trigger] m[a]).key() == s[a].key() by {}
        lemma_slot_is(m, key, k);
    } else if key == v.key() {
        lemma_slot_is(m, key, s.len() as int);
    } else if k < s.len() {
        lemma_slot_is(m, key, k);
    } else {
        lemma_slot_is(m, key, m.len() as int);
    }
}

/// Adding a list of values keeps the units distinct and changes each total by
/// the sum of the amounts added for its unit, in two's complement.
pub proof fn lemma_merged_all(s: Seq<Value>, vs: Seq<Value>, key: u64)
    requires
        distinct_keys(s),
    ensures
        distinct_keys(merged_all(s, vs)),
        total(merged_all(s, vs), key) == wrap32(total(s, key) + sum_of(vs, key)),
        amount(merged_all(s, vs), key) is Some <==> amount(s, key) is Some || amount(
            vs,
            key,
        ) is Some,
    decreases vs.len(),
{
    lemma_slot_of(vs, key);
    if vs.len() > 0 {
        let front = vs.drop_last();
        lemma_merged_all(s, front, key);
        lemma_merged(merged_all(s, front), vs.last(), key);
        lemma_slot_of(front, key);
        assert forall|j: int| 0 <= j < front.len() implies front[j] == vs[j] by {}
    }
}

/// Where the units are distinct, the sum of the amounts of a unit is the one
/// amount held for it.
pub proof fn lemma_sum_of_distinct(vs: Seq<Value>, key: u64)
    requires
        distinct_keys(vs),
    ensures
        sum_of(vs, key) == total(vs, key),
    decreases vs.len(),
{
    lemma_slot_of(vs, key);
    if vs.len() > 0 {
        let front = vs.drop_last();
        assert forall|j: int| 0 <= j < front.len() implies front[j] == vs[j] by {}
        lemma_sum_of_distinct(front, key);
        lemma_slot_of(front, key);
    }
}

/// The sum of the amounts of a unit in a list and the sum in the negated list
/// cancel, up to a multiple of 2^32.
pub proof fn lemma_sum_of_negated(vs: Seq<Value>, key: u64)
    ensures
        (sum_of(vs, key) + sum_of(negated_all(vs), key)) % 0x1_0000_0000 == 0,
    decreases vs.len(),
{
    if vs.len() > 0 {
        lemma_sum_of_negated(vs.drop_last(), key);
        assert(negated_all(vs).drop_last() =~= negated_all(vs.drop_last()));
    }
}

/// Merging two sets of totals that share no unit leaves every amount as it
/// was: a unit of the first keeps the amount it had there, a unit of the
/// second the amount it had there, and no other unit gets one.
pub proof fn law_disjoint_merge_keeps_amounts(v1: Seq<Value>, v2: Seq<Value>, key: u64)
    requires
        distinct_keys(v1),
        distinct_keys(v2),
        forall|i: int, j: int|
            0 <= i < v1.len() && 0 <= j < v2.len() ==> (#[trigger] v1[i]).key() != (
            #[trigger] v2[j]).key(),
    ensures
        amount(merged_all(v1, v2), key) == if amount(v1, key) is Some {
            amount(v1, key)
        } else {
            amount(v2, key)
        },
{
    lemma_merged_all(v1, v2, key);
    lemma_sum_of_distinct(v2, key);
    lemma_slot_of(v1, key);
    lemma_slot_of(v2, key);
}

/// Adding a value and then subtracting it restores every total.
pub proof fn law_add_then_subtract_restores(v: Seq<Value>, x: Value, key: u64)
    requires
        distinct_keys(v),
    ensures
        total(merged(merged(v, x), x.negated()), key) == total(v, key),
{
    reveal_with_fuel(merged_all, 2);
    law_add_all_then_subtract_all_restores(v, seq![x], key);
}

/// Adding a list of values and then subtracting the same list restores every
/// total.
pub proof fn law_add_all_then_subtract_all_restores(v: Seq<Value>, x: Seq<Value>, key: u64)
    requires
        distinct_keys(v),
    ensures
        total(merged_all(merged_all(v, x), negated_all(x)), key) == total(v, key),
{
    lemma_merged_all(v, x, key);
    lemma_merged_all(merged_all(v, x), negated_all(x), key);
    lemma_sum_of_negated(x, key);
}

/// Totals: at most one amount for each unit, in the order in which the units
/// were first added.
#[derive(Debug)]
pub struct Values {
    values: Vec<Value>,
}

impl View for Values {
    type V = Seq<Value>;

    closed spec fn view(&self) -> Seq<Value> {
        self.values@
    }
}

impl Clone for Values {
    fn clone(&self) -> (r: Self)
        ensures
            r@ == self@,
            distinct_keys(r@),
    {
        proof {
            use_type_invariant(self);
        }
        let mut values: Vec<Value> = Vec::with_capacity(self.values.len());
        let mut i: usize = 0;
        while i < self.values.len()
            invariant
                i <= self.values.len(),
                values@ == self.values@.take(i as int),
            decreases self.values.len() - i,
        {
            values.push(self.values[i].clone());
            i += 1;
        }
        Values { values }
    }
}

impl Values {
    #[verifier::type_invariant]
    spec fn units_are_distinct(&self) -> bool {
        distinct_keys(self.values@)
    }

    /// Empty totals.
    pub fn new() -> (r: Values)
        ensures
            r@ == Seq::<Value>::empty(),
    {
        Values { values: Vec::with_capacity(1) }
    }

    /// Empty totals with room for `capacity` entries.
    pub fn with_capacity(capacity: usize) -> (r: Values)
        ensures
            r@ == Seq::<Value>::empty(),
    {
        Values { values: Vec::with_capacity(capacity) }
    }

    /// The number of units that have an amount.
    pub fn len(&self) -> (n: usize)
        ensures
            n == self@.len(),
            distinct_keys(self@),
    {
        proof {
            use_type_invariant(self);
        }
        self.values.len()
    }

    /// The entry at place `i`.
    pub fn get(&self, i: usize) -> (v: &Value)
        requires
            i < self@.len(),
        ensures
            *v == self@[i as int],
    {
        &self.values[i]
    }

    /// Adds `value`: to the amount already held for its unit, which keeps its
    /// place, or as a new last entry.
    pub fn add_value(&mut self, value: Value)
        ensures
            final(self)@ == merged(old(self)@, value),
            distinct_keys(final(self)@),
    {
        proof {
            use_type_invariant(&*self);
        }
        let mut values: Vec<Value> = Vec::new();
        std::mem::swap(&mut self.values, &mut values);
        let mut i: usize = 0;
        while i < values.len()
            invariant
                i <= values.len(),
                values@ == old(self).values@,
                distinct_keys(values@),
                forall|j: int| 0 <= j < i ==> (#[trigger] values@[j]).key() != value.key(),
            decreases values.len() - i,
        {
            if values[i].has_same_unit(&value) {
                proof {
                    lemma_slot_is(values@, value.key(), i as int);
                }
                let mut entry = values[i].clone();
                entry.add(value.value);
                values.set(i, entry);
                self.values = values;
                return ;
            }
            i += 1;
        }
        proof {
            lemma_slot_is(values@, value.key(), values@.len() as int);
        }
        values.push(value);
        self.values = values;
    }

    /// Adds every entry of `values`, in their order.
    pub fn add_all_values(&mut self, values: Values)
        ensures
            final(self)@ == merged_all(old(self)@, values@),
            distinct_keys(final(self)@),
    {
        let mut i: usize = 0;
        while i < values.values.len()
            invariant
                i <= values.values.len(),
                self@ == merged_all(old(self)@, values@.take(i as int)),
            decreases values.values.len() - i,
        {
            self.add_value(values.values[i].clone());
            proof {
                let now = values@.take(i + 1);
                assert(now.drop_last() =~= values@.take(i as int));
            }
            i += 1;
        }
        proof {
            use_type_invariant(&*self);
            assert(values@.take(values@.len() as int) =~= values@);
        }
    }

    /// Subtracts `value`: adds the value of opposite sign.
    pub fn subtract_value(&mut self, value: Value)
        ensures
            final(self)@ == merged(old(self)@, value.negated()),
    {
        self.add_value(value.neg());
    }

    /// Subtracts every entry of `values`, in their order.
    pub fn subtract_all_values(&mut self, values: Values)
        ensures
            final(self)@ == merged_all(old(self)@, negated_all(values@)),
    {
        self.add_all_values(values.neg());
    }

    /// The amount held for `unit`; `None` when there is none, which is not
    /// the same as an amount of zero.
    pub fn value_for(&self, unit: &Rc<Unit>) -> (r: Option<i32>)
        ensures
            r == amount(self@, unit.spec_id()),
    {
        let mut i: usize = 0;
        while i < self.values.len()
            invariant
                i <= self.values.len(),
                forall|j: int| 0 <= j < i ==> (#[trigger] self.values@[j]).key() != unit.spec_id(),
            decreases self.values.len() - i,
        {
            if self.values[i].is_for_unit(unit) {
                proof {
                    lemma_slot_is(self.values@, unit.spec_id(), i as int);
                }
                return Some(self.values[i].value);
            }
            i += 1;
        }
        proof {
            lemma_slot_is(self.values@, unit.spec_id(), self.values@.len() as int);
        }
        None
    }

    /// The totals of opposite sign.
    pub fn neg(self) -> (r: Values)
        ensures
            r@ == negated_all(self@),
            distinct_keys(r@),
    {
        proof {
            use_type_invariant(&self);
        }
        let mut values: Vec<Value> = Vec::with_capacity(self.values.len());
        let mut i: usize = 0;
        while i < self.values.len()
            invariant
                i <= self.values.len(),
                values@ == negated_all(self.values@).take(i as int),
            decreases self.values.len() - i,
        {
            values.push(self.values[i].clone().neg());
            i += 1;
        }
        proof {
            let ns = negated_all(self.values@);
            assert forall|a: int, b: int| 0 <= a < b < ns.len() implies (
            #[trigger] ns[a]).key() != (#[trigger] ns[b]).key() by {}
        }
        Values { values }
    }

    /// The totals that hold `value` alone.
    pub fn from_value(value: Value) -> (r: Values)
        ensures
            r@ == seq![value],
    {
        let mut values: Vec<Value> = Vec::with_capacity(1);
        values.push(value);
        Values { values }
    }

    /// The totals that come of adding `values` one by one: amounts of the
    /// same unit are summed.
    pub fn from_values(values: Vec<Value>) -> (r: Values)
        ensures
            r@ == merged_all(Seq::empty(), values@),
            distinct_keys(r@),
    {
        let mut out = Values::with_capacity(values.len());
        let mut i: usize = 0;
        while i < values.len()
            invariant
                i <= values.len(),
                out@ == merged_all(Seq::empty(), values@.take(i as int)),
            decreases values.len() - i,
        {
            out.add_value(values[i].clone());
            proof {
                let now = values@.take(i + 1);
                assert(now.drop_last() =~= values@.take(i as int));
            }
            i += 1;
        }
        proof {
            use_type_invariant(&out);
            assert(values@.take(values@.len() as int) =~= values@);
        }
        out
    }

    /// The listing of the totals: each amount in the format of its unit, one
    /// to a line.
    pub fn to_string(&self) -> (s: String)
        ensures
            s@ == listing(self@),
    {
        let mut lines: Vec<String> = Vec::with_capacity(self.values.len());
        let mut i: usize = 0;
        while i < self.values.len()
            invariant
                i <= self.values.len(),
                views(lines@) == outputs(self.values@).take(i as int),
            decreases self.values.len() - i,
        {
            let line = self.values[i].output();
            proof {
                lemma_views_push(lines@, line);
            }
            lines.push(line);
            i += 1;
        }
        assert(outputs(self.values@).take(self.values@.len() as int) =~= outputs(self.values@));
        join(&lines, "\n")
    }
}

impl PartialEq for Values {
    fn eq(&self, other: &Values) -> (r: bool) {
        if self.values.len() != other.values.len() {
            return false;
        }
        let mut i: usize = 0;
        while i < self.values.len()
            invariant
                i <= self.values.len(),
                self.values.len() == other.values.len(),
                forall|j: int|
                    0 <= j < i ==> (#[trigger] self.values@[j]).key() == other.values@[j].key()
                        && self.values@[j].value == other.values@[j].value,
            decreases self.values.len() - i,
        {
            if !(self.values[i].has_same_unit(&other.values[i]) && self.values[i].value
                == other.values[i].value) {
                return false;
            }
            i += 1;
        }
        true
    }
}

impl vstd::std_specs::cmp::PartialEqSpecImpl for Values {
    open spec fn obeys_eq_spec() -> bool {
        true
    }

    open spec fn eq_spec(&self, other: &Values) -> bool {
        same_entries(self@, other@)
    }
}

} // verus!
