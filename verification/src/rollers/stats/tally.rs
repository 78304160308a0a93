//! The samples while they are collected: for every unit the amounts that
//! the rolls hold for it.

use vstd::prelude::*;
use std::rc::Rc;
use crate::rollers::stats::calculate::{is_sample, lemma_occurrences_push, occurrences};
use crate::units::Unit;
use crate::value::{
    amount, distinct_keys, lemma_slot_is, lemma_slot_of, slot_of, total, Value, Values,
};

verus! {

/// The sample of one unit while it is collected: the unit and its amounts
/// so far, in the order of the rolls.
pub struct Tally {
    pub unit: Rc<Unit>,
    pub values: Seq<i32>,
}

/// The totals of each of `rolls`.
pub open spec fn totals_of(rolls: Seq<Values>) -> Seq<Seq<Value>> {
    rolls.map_values(|v: Values| v@)
}

/// No two tallies are for the same unit.
pub open spec fn distinct_units(tallies: Seq<Tally>) -> bool {
    forall|i: int, j: int|
        0 <= i < j < tallies.len() ==> (#[trigger] tallies[i]).unit.spec_id() != (
        #[trigger] tallies[j]).unit.spec_id()
}

/// The index of the first tally for the unit `key`; the length of the list
/// when there is none.
pub open spec fn tally_slot(tallies: Seq<Tally>, key: u64) -> int
    decreases tallies.len(),
{
    if tallies.len() == 0 {
        0
    } else if tallies[0].unit.spec_id() == key {
        0
    } else {
        1 + tally_slot(tallies.drop_first(), key)
    }
}

/// The amounts collected for the unit `key`; none when it has no tally.
pub open spec fn tally_values(tallies: Seq<Tally>, key: u64) -> Seq<i32> {
    if tally_slot(tallies, key) < tallies.len() {
        tallies[tally_slot(tallies, key)].values
    } else {
        Seq::empty()
    }
}

/// The tallies after `v` was counted: its amount goes to the end of the
/// tally of its unit, or into a new last tally when its unit has none.
pub open spec fn tallied(tallies: Seq<Tally>, v: Value) -> Seq<Tally> {
    let i = tally_slot(tallies, v.key());
    if i < tallies.len() {
        tallies.update(i, Tally { unit: tallies[i].unit, values: tallies[i].values.push(v.value) })
    } else {
        tallies.push(Tally { unit: v.unit, values: seq![v.value] })
    }
}

/// The tallies after the totals of one roll were counted, entry by entry.
pub open spec fn tallied_all(tallies: Seq<Tally>, values: Seq<Value>) -> Seq<Tally>
    decreases values.len(),
{
    if values.len() == 0 {
        tallies
    } else {
        tallied(tallied_all(tallies, values.drop_last()), values.last())
    }
}

/// The tallies after the totals of `rolls` were counted, roll by roll.
pub open spec fn tallied_rolls(tallies: Seq<Tally>, rolls: Seq<Seq<Value>>) -> Seq<Tally>
    decreases rolls.len(),
{
    if rolls.len() == 0 {
        tallies
    } else {
        tallied_all(tallied_rolls(tallies, rolls.drop_last()), rolls.last())
    }
}

/// The amounts that `rolls` hold for the unit `key`, in the order of the
/// rolls; a roll without an amount for the unit gives none.
pub open spec fn present(rolls: Seq<Seq<Value>>, key: u64) -> Seq<i32>
    decreases rolls.len(),
{
    if rolls.len() == 0 {
        Seq::empty()
    } else {
        match amount(rolls.last(), key) {
            Some(a) => present(rolls.drop_last(), key).push(a),
            None => present(rolls.drop_last(), key),
        }
    }
}

/// The total of the unit `key` in each of `rolls`; a roll without an amount
/// for the unit gives 0.
pub open spec fn samples(rolls: Seq<Seq<Value>>, key: u64) -> Seq<i32> {
    Seq::new(rolls.len(), |i: int| total(rolls[i], key) as i32)
}

/// `tally_slot` gives a place in the list or its length; a tally found there
/// is for `key`, and no tally before it is.
pub proof fn lemma_tally_slot(tallies: Seq<Tally>, key: u64)
    ensures
        0 <= tally_slot(tallies, key) <= tallies.len(),
        tally_slot(tallies, key) < tallies.len() ==> tallies[tally_slot(
            tallies,
            key,
        )].unit.spec_id() == key,
        forall|j: int|
            0 <= j < tally_slot(tallies, key) ==> (#[trigger] tallies[j]).unit.spec_id() != key,
    decreases tallies.len(),
{
    if tallies.len() > 0 && tallies[0].unit.spec_id() != key {
        let rest = tallies.drop_first();
        lemma_tally_slot(rest, key);
        assert forall|j: int| 0 <= j < tally_slot(tallies, key) implies (
        #[trigger] tallies[j]).unit.spec_id() != key by {
            if j > 0 {
                assert(tallies[j] == rest[j - 1]);
            }
        }
    }
}

/// The first place with a tally for `key`, or the length when there is none,
/// is what `tally_slot` gives.
pub proof fn lemma_tally_slot_is(tallies: Seq<Tally>, key: u64, i: int)
    requires
        0 <= i <= tallies.len(),
        i < tallies.len() ==> tallies[i].unit.spec_id() == key,
        forall|j: int| 0 <= j < i ==> (#[trigger] tallies[j]).unit.spec_id() != key,
    ensures
        tally_slot(tallies, key) == i,
{
    lemma_tally_slot(tallies, key);
}

/// Counting a value keeps the units distinct, adds its amount to the tally
/// of its unit and leaves every other tally as it was.
pub proof fn lemma_tallied(tallies: Seq<Tally>, v: Value, key: u64)
    requires
        distinct_units(tallies),
    ensures
        distinct_units(tallied(tallies, v)),
        tally_values(tallied(tallies, v), key) == if key == v.key() {
            tally_values(tallies, key).push(v.value)
        } else {
            tally_values(tallies, key)
        },
        tally_slot(tallied(tallies, v), key) < tallied(tallies, v).len() <==> tally_slot(
            tallies,
            key,
        ) < tallies.len() || key == v.key(),
{
    let t = tallied(tallies, v);
    let k = tally_slot(tallies, key);
    lemma_tally_slot(tallies, v.key());
    lemma_tally_slot(tallies, key);
    if tally_slot(tallies, v.key()) < tallies.len() {
        assert forall|a: int| 0 <= a < t.len() implies (#[trigger] t[a]).unit.spec_id()
            == tallies[a].unit.spec_id() by {}
        lemma_tally_slot_is(t, key, k);
    } else if key == v.key() {
        lemma_tally_slot_is(t, key, tallies.len() as int);
    } else if k < tallies.len() {
        lemma_tally_slot_is(t, key, k);
    } else {
        lemma_tally_slot_is(t, key, t.len() as int);
    }
}

/// The amount that a list with one more entry holds for a unit: that of the
/// new entry where it is the first of its unit, else the amount held before.
pub proof fn lemma_amount_push(values: Seq<Value>, last: Value, key: u64)
    requires
        distinct_keys(values.push(last)),
    ensures
        distinct_keys(values),
        amount(values.push(last), key) == if key == last.key() {
            Some(last.value)
        } else {
            amount(values, key)
        },
        key == last.key() ==> amount(values, key) is None,
{
    let all = values.push(last);
    let k = slot_of(values, key);
    assert forall|j: int| 0 <= j < values.len() implies values[j] == all[j] by {}
    lemma_slot_of(values, key);
    if key == last.key() {
        assert forall|j: int| 0 <= j < values.len() implies (#[trigger] all[j]).key() != key by {
            assert(all[j].key() != all[values.len() as int].key());
        }
        lemma_slot_is(all, key, values.len() as int);
    } else if k < values.len() {
        lemma_slot_is(all, key, k);
    } else {
        lemma_slot_is(all, key, all.len() as int);
    }
}

/// Counting the totals of one roll adds, for each unit, the amount that the
/// roll holds for it to the tally of the unit.
pub proof fn lemma_tallied_all(tallies: Seq<Tally>, values: Seq<Value>, key: u64)
    requires
        distinct_units(tallies),
        distinct_keys(values),
    ensures
        distinct_units(tallied_all(tallies, values)),
        tally_values(tallied_all(tallies, values), key) == match amount(values, key) {
            Some(a) => tally_values(tallies, key).push(a),
            None => tally_values(tallies, key),
        },
        tally_slot(tallied_all(tallies, values), key) < tallied_all(tallies, values).len()
            <==> tally_slot(tallies, key) < tallies.len() || amount(values, key) is Some,
    decreases values.len(),
{
    if values.len() > 0 {
        let front = values.drop_last();
        assert(front.push(values.last()) =~= values);
        lemma_amount_push(front, values.last(), key);
        lemma_tallied_all(tallies, front, key);
        lemma_tallied(tallied_all(tallies, front), values.last(), key);
    }
}

/// Counting the totals of rolls gives, for each unit, the amounts that the
/// rolls hold for it, in the order of the rolls; and a unit has a tally as
/// soon as a roll holds an amount for it.
pub proof fn lemma_tallied_rolls(rolls: Seq<Seq<Value>>, key: u64)
    requires
        forall|i: int| 0 <= i < rolls.len() ==> distinct_keys(#[trigger] rolls[i]),
    ensures
        distinct_units(tallied_rolls(Seq::empty(), rolls)),
        tally_values(tallied_rolls(Seq::empty(), rolls), key) == present(rolls, key),
        present(rolls, key).len() <= rolls.len(),
        tally_slot(tallied_rolls(Seq::empty(), rolls), key) < tallied_rolls(
            Seq::empty(),
            rolls,
        ).len() ==> present(rolls, key).len() > 0,
    decreases rolls.len(),
{
    if rolls.len() > 0 {
        let front = rolls.drop_last();
        assert forall|i: int| 0 <= i < front.len() implies front[i] == rolls[i] by {}
        lemma_tallied_rolls(front, key);
        lemma_tallied_all(tallied_rolls(Seq::empty(), front), rolls.last(), key);
    }
}

/// A sample that was filled up to the number of rolls holds the total of
/// the unit in each roll, no more and no less: a roll without an amount for
/// the unit counts as a 0.
pub proof fn law_sample_holds_every_total(
    rolls: Seq<Seq<Value>>,
    key: u64,
    sample: Seq<i32>,
    x: i32,
)
    requires
        is_sample(sample, present(rolls, key), rolls.len()),
    ensures
        sample.len() == rolls.len(),
        occurrences(sample, x) == occurrences(samples(rolls, key), x),
{
    lemma_present_and_samples(rolls, key, x);
}

/// The totals of a unit over the rolls are the amounts held for it and one 0
/// for each roll that holds none.
pub proof fn lemma_present_and_samples(rolls: Seq<Seq<Value>>, key: u64, x: i32)
    ensures
        present(rolls, key).len() <= rolls.len(),
        occurrences(samples(rolls, key), x) == occurrences(present(rolls, key), x) + if x == 0 {
            rolls.len() - present(rolls, key).len()
        } else {
            0
        },
    decreases rolls.len(),
{
    if rolls.len() > 0 {
        let front = rolls.drop_last();
        lemma_present_and_samples(front, key, x);
        let t = total(rolls.last(), key) as i32;
        assert(samples(rolls, key) =~= samples(front, key).push(t));
        lemma_occurrences_push(samples(front, key), t, x);
        match amount(rolls.last(), key) {
            Some(a) => {
                lemma_occurrences_push(present(front, key), a, x);
            },
            None => {},
        }
    }
}

} // verus!
