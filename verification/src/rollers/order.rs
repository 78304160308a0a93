//! The ordering of rolls by their totals, and the sorting behind "drop
//! lowest" and "drop highest".

use vstd::prelude::*;
use std::rc::Rc;
use crate::rollers::view::RollView;
use crate::rollers::{lemma_views_of, lemma_views_of_are, views_of, SubRoll};
use crate::units::Unit;
use crate::value::{amount, Value, Values};

verus! {

/// What a roll counts as, when rolls are ordered, in a unit for which it has
/// no amount. This is a policy of the ordering, set in this one place: an
/// ordering that ranks such a roll below every roll that has an amount would
/// put the lowest number here.
pub const ABSENT_TOTAL: i32 = 0;

/// What the totals `a` count as in the unit `key` when rolls are ordered:
/// the amount held for the unit, and `ABSENT_TOTAL` where there is none.
pub open spec fn standing(a: Seq<Value>, key: u64) -> int {
    match amount(a, key) {
        Some(v) => v as int,
        None => ABSENT_TOTAL as int,
    }
}

/// How one roll stands to another in an ordering.
#[derive(Clone, Copy, Debug, PartialEq, Eq)]
pub enum Comparison {
    Less,
    Equal,
    Greater,
}

/// Whether the totals `a` come before the totals `b`: the units of `order`
/// are taken in turn, a unit without an amount counts as `ABSENT_TOTAL`, and
/// the first unit in which the two differ decides.
pub open spec fn lower(a: Seq<Value>, b: Seq<Value>, order: Seq<Rc<Unit>>) -> bool
    decreases order.len(),
{
    if order.len() == 0 {
        false
    } else {
        let x = standing(a, order[0].spec_id());
        let y = standing(b, order[0].spec_id());
        if x == y {
            lower(a, b, order.drop_first())
        } else {
            x < y
        }
    }
}

/// How the totals `a` stand to the totals `b`.
pub open spec fn compared(a: Seq<Value>, b: Seq<Value>, order: Seq<Rc<Unit>>) -> Comparison {
    if lower(a, b, order) {
        Comparison::Less
    } else if lower(b, a, order) {
        Comparison::Greater
    } else {
        Comparison::Equal
    }
}

/// Where `x` goes into the sorted list `sorted`: before the first roll that
/// it comes before, so after every roll that it ties with.
pub open spec fn insertion_point(sorted: Seq<RollView>, x: RollView, order: Seq<Rc<Unit>>) -> int
    decreases sorted.len(),
{
    if sorted.len() == 0 {
        0
    } else if lower(x.totals(), sorted[0].totals(), order) {
        0
    } else {
        1 + insertion_point(sorted.drop_first(), x, order)
    }
}

/// `rolls` sorted from low to high, rolls that tie in the order in which they
/// were rolled.
pub open spec fn stable_sorted(rolls: Seq<RollView>, order: Seq<Rc<Unit>>) -> Seq<RollView>
    decreases rolls.len(),
{
    if rolls.len() == 0 {
        rolls
    } else {
        let front = stable_sorted(rolls.drop_last(), order);
        front.insert(insertion_point(front, rolls.last(), order), rolls.last())
    }
}

/// The insertion point is a place in the list or its end; `x` comes before
/// the roll at that place and before none of the rolls ahead of it.
pub proof fn lemma_insertion_point(sorted: Seq<RollView>, x: RollView, order: Seq<Rc<Unit>>)
    ensures
        0 <= insertion_point(sorted, x, order) <= sorted.len(),
        insertion_point(sorted, x, order) < sorted.len() ==> lower(
            x.totals(),
            sorted[insertion_point(sorted, x, order)].totals(),
            order,
        ),
        forall|j: int|
            0 <= j < insertion_point(sorted, x, order) ==> !lower(
                x.totals(),
                (#[trigger] sorted[j]).totals(),
                order,
            ),
    decreases sorted.len(),
{
    if sorted.len() > 0 && !lower(x.totals(), sorted[0].totals(), order) {
        let rest = sorted.drop_first();
        lemma_insertion_point(rest, x, order);
        assert forall|j: int| 0 <= j < insertion_point(sorted, x, order) implies !lower(
            x.totals(),
            (#[trigger] sorted[j]).totals(),
            order,
        ) by {
            if j > 0 {
                assert(sorted[j] == rest[j - 1]);
            }
        }
    }
}

/// The first place whose roll `x` comes before is the insertion point.
pub proof fn lemma_insertion_point_is(
    sorted: Seq<RollView>,
    x: RollView,
    order: Seq<Rc<Unit>>,
    p: int,
)
    requires
        0 <= p <= sorted.len(),
        p < sorted.len() ==> lower(x.totals(), sorted[p].totals(), order),
        forall|j: int| 0 <= j < p ==> !lower(x.totals(), (#[trigger] sorted[j]).totals(), order),
    ensures
        insertion_point(sorted, x, order) == p,
{
    lemma_insertion_point(sorted, x, order);
}

/// Whether `rolls` ascend: no roll comes before a roll ahead of it.
pub open spec fn ordered(rolls: Seq<RollView>, order: Seq<Rc<Unit>>) -> bool {
    forall|i: int, j: int|
        0 <= i < j < rolls.len() ==> !lower(
            (#[trigger] rolls[j]).totals(),
            (#[trigger] rolls[i]).totals(),
            order,
        )
}

/// Totals that come before others do not come after them.
pub proof fn lemma_lower_is_one_way(a: Seq<Value>, b: Seq<Value>, order: Seq<Rc<Unit>>)
    requires
        lower(a, b, order),
    ensures
        !lower(b, a, order),
    decreases order.len(),
{
    if order.len() > 0 && standing(a, order[0].spec_id()) == standing(b, order[0].spec_id()) {
        lemma_lower_is_one_way(a, b, order.drop_first());
    }
}

/// Totals that come before others come before all that those come before.
pub proof fn lemma_lower_carries_on(
    a: Seq<Value>,
    b: Seq<Value>,
    c: Seq<Value>,
    order: Seq<Rc<Unit>>,
)
    requires
        lower(a, b, order),
        lower(b, c, order),
    ensures
        lower(a, c, order),
    decreases order.len(),
{
    if order.len() > 0 {
        let key = order[0].spec_id();
        if standing(a, key) == standing(b, key) && standing(b, key) == standing(c, key) {
            lemma_lower_carries_on(a, b, c, order.drop_first());
        }
    }
}

/// Totals that come before others come before all that do not come before
/// those.
pub proof fn lemma_lower_reaches(
    a: Seq<Value>,
    b: Seq<Value>,
    c: Seq<Value>,
    order: Seq<Rc<Unit>>,
)
    requires
        lower(a, b, order),
        !lower(c, b, order),
    ensures
        lower(a, c, order),
    decreases order.len(),
{
    if order.len() > 0 {
        let key = order[0].spec_id();
        if standing(a, key) == standing(b, key) && standing(b, key) == standing(c, key) {
            lemma_lower_reaches(a, b, c, order.drop_first());
        }
    }
}

/// For each place of the sorted list, the place that its roll had when it
/// was rolled.
pub open spec fn sorted_places(rolls: Seq<RollView>, order: Seq<Rc<Unit>>) -> Seq<int>
    decreases rolls.len(),
{
    if rolls.len() == 0 {
        Seq::empty()
    } else {
        let front = rolls.drop_last();
        sorted_places(front, order).insert(
            insertion_point(stable_sorted(front, order), rolls.last(), order),
            rolls.len() - 1,
        )
    }
}

/// Sorting moves rolls and nothing else, and rolls that tie stay in the
/// order in which they were rolled: each place of the sorted list holds the
/// roll of one place of the list as rolled, no two the same, and of two
/// rolls that tie the one rolled first stands first.
pub proof fn law_sorting_is_stable(rolls: Seq<RollView>, order: Seq<Rc<Unit>>)
    ensures
        sorted_places(rolls, order).len() == rolls.len(),
        stable_sorted(rolls, order).len() == rolls.len(),
        forall|k: int|
            0 <= k < rolls.len() ==> 0 <= (#[trigger] sorted_places(rolls, order)[k]) < rolls.len()
                && stable_sorted(rolls, order)[k] == rolls[sorted_places(rolls, order)[k]],
        forall|k: int, l: int|
            0 <= k < l < rolls.len() ==> (#[trigger] sorted_places(rolls, order)[k]) != (
            #[trigger] sorted_places(rolls, order)[l]),
        forall|k: int, l: int|
            0 <= k < l < rolls.len() && !lower(
                stable_sorted(rolls, order)[k].totals(),
                stable_sorted(rolls, order)[l].totals(),
                order,
            ) ==> (#[trigger] sorted_places(rolls, order)[k]) < (#[trigger] sorted_places(
                rolls,
                order,
            )[l]),
    decreases rolls.len(),
{
    if rolls.len() > 0 {
        let front = rolls.drop_last();
        let x = rolls.last();
        let sorted_front = stable_sorted(front, order);
        let places_front = sorted_places(front, order);
        let p = insertion_point(sorted_front, x, order);
        let sorted = stable_sorted(rolls, order);
        let places = sorted_places(rolls, order);
        law_sorting_is_stable(front, order);
        lemma_stable_sorted(front, order);
        lemma_insertion_point(sorted_front, x, order);
        assert forall|k: int| 0 <= k < rolls.len() implies 0 <= (#[trigger] places[k]) < rolls.len()
            && sorted[k] == rolls[places[k]] by {
            if k < p {
                assert(places[k] == places_front[k]);
                assert(sorted[k] == sorted_front[k]);
                assert(front[places_front[k]] == rolls[places_front[k]]);
            } else if k > p {
                assert(places[k] == places_front[k - 1]);
                assert(sorted[k] == sorted_front[k - 1]);
                assert(front[places_front[k - 1]] == rolls[places_front[k - 1]]);
            }
        }
        assert forall|k: int, l: int| 0 <= k < l < rolls.len() implies (#[trigger] places[k]) != (
        #[trigger] places[l]) && (!lower(sorted[k].totals(), sorted[l].totals(), order)
            ==> places[k] < places[l]) by {
            let a = if k < p {
                k
            } else {
                k - 1
            };
            let b = if l < p {
                l
            } else {
                l - 1
            };
            if k == p {
                assert(places[l] == places_front[b]);
                assert(sorted[l] == sorted_front[b]);
                if b > p {
                    assert(!lower(sorted_front[b].totals(), sorted_front[p].totals(), order));
                    lemma_lower_reaches(
                        x.totals(),
                        sorted_front[p].totals(),
                        sorted[l].totals(),
                        order,
                    );
                }
            } else if l == p {
                assert(places[k] == places_front[a]);
            } else {
                assert(places[k] == places_front[a]);
                assert(places[l] == places_front[b]);
                assert(sorted[k] == sorted_front[a]);
                assert(sorted[l] == sorted_front[b]);
            }
        }
    }
}

/// Sorting keeps every roll, as often as it was rolled, and leaves the rolls
/// in ascending order.
pub proof fn lemma_stable_sorted(rolls: Seq<RollView>, order: Seq<Rc<Unit>>)
    ensures
        stable_sorted(rolls, order).len() == rolls.len(),
        stable_sorted(rolls, order).to_multiset() == rolls.to_multiset(),
        ordered(stable_sorted(rolls, order), order),
    decreases rolls.len(),
{
    broadcast use vstd::seq_lib::group_to_multiset_ensures;

    if rolls.len() > 0 {
        let front = stable_sorted(rolls.drop_last(), order);
        let x = rolls.last();
        let p = insertion_point(front, x, order);
        let sorted = front.insert(p, x);
        lemma_stable_sorted(rolls.drop_last(), order);
        lemma_insertion_point(front, x, order);
        assert(rolls.drop_last().push(x) =~= rolls);
        assert(sorted.remove(p) =~= front);
        assert(sorted.to_multiset() =~= front.to_multiset().insert(x)) by {
            assert(sorted[p] == x);
            assert(sorted.contains(x));
        }
        assert forall|i: int, j: int| 0 <= i < j < sorted.len() implies !lower(
            (#[trigger] sorted[j]).totals(),
            (#[trigger] sorted[i]).totals(),
            order,
        ) by {
            if j == p {
                assert(sorted[i] == front[i]);
            } else if i == p {
                assert(sorted[j] == front[j - 1]);
                if j - 1 > p {
                    assert(!lower(front[j - 1].totals(), front[p].totals(), order));
                }
                if lower(sorted[j].totals(), x.totals(), order) {
                    lemma_lower_carries_on(
                        sorted[j].totals(),
                        x.totals(),
                        front[p].totals(),
                        order,
                    );
                    lemma_lower_is_one_way(x.totals(), front[p].totals(), order);
                }
            } else {
                let a = if i < p {
                    i
                } else {
                    i - 1
                };
                let b = if j < p {
                    j
                } else {
                    j - 1
                };
                assert(sorted[i] == front[a]);
                assert(sorted[j] == front[b]);
            }
        }
    }
}

/// Compares the totals `a` and `b` by the units of `order`.
pub fn compare_totals(order: &Vec<Rc<Unit>>, a: &Values, b: &Values) -> (c: Comparison)
    ensures
        c == compared(a@, b@, order@),
{
    let mut i: usize = 0;
    assert(order@.skip(0) =~= order@);
    while i < order.len()
        invariant
            i <= order.len(),
            lower(a@, b@, order@) == lower(a@, b@, order@.skip(i as int)),
            lower(b@, a@, order@) == lower(b@, a@, order@.skip(i as int)),
        decreases order.len() - i,
    {
        let x = a.value_for(&order[i]).unwrap_or(ABSENT_TOTAL);
        let y = b.value_for(&order[i]).unwrap_or(ABSENT_TOTAL);
        proof {
            let rest = order@.skip(i as int);
            assert(rest.drop_first() =~= order@.skip(i + 1));
        }
        if x < y {
            return Comparison::Less;
        } else if x > y {
            return Comparison::Greater;
        }
        i += 1;
    }
    Comparison::Equal
}

/// Sorts `rolls` from low to high by the units of `order`; rolls that tie
/// stay in the order in which they were rolled.
pub fn sort_rolls(rolls: Vec<SubRoll>, order: &Vec<Rc<Unit>>) -> (sorted: Vec<SubRoll>)
    ensures
        views_of(sorted@) == stable_sorted(views_of(rolls@), order@),
        sorted@.len() == rolls@.len(),
{
    let ghost all = views_of(rolls@);
    let mut rest = rolls;
    let mut sorted: Vec<SubRoll> = Vec::with_capacity(rest.len());
    let mut keys: Vec<Values> = Vec::with_capacity(rest.len());
    proof {
        lemma_views_of(rolls@);
    }
    while rest.len() > 0
        invariant
            rest@.len() <= rolls@.len(),
            all == views_of(rolls@),
            all.len() == rolls@.len(),
            forall|j: int| 0 <= j < rolls@.len() ==> (#[trigger] all[j]) == rolls@[j].view(),
            rest@ == rolls@.skip(rolls@.len() - rest@.len()),
            keys@.len() == sorted@.len(),
            sorted@.len() == rolls@.len() - rest@.len(),
            forall|j: int|
                0 <= j < sorted@.len() ==> (#[trigger] keys@[j])@ == sorted@[j].view().totals(),
            views_of(sorted@) == stable_sorted(all.take(rolls@.len() - rest@.len()), order@),
        decreases rest.len(),
    {
        let ghost done = rolls@.len() - rest@.len();
        let ghost before = sorted@;
        let roll = rest.remove(0);
        let key = roll.totals();
        proof {
            lemma_views_of(before);
        }
        let mut p: usize = 0;
        while p < sorted.len() && !matches!(
            compare_totals(order, &key, &keys[p]),
            Comparison::Less
        )
            invariant
                p <= sorted@.len(),
                keys@.len() == sorted@.len(),
                key@ == roll.view().totals(),
                forall|j: int|
                    0 <= j < sorted@.len() ==> (#[trigger] keys@[j])@ == sorted@[j].view().totals(),
                forall|j: int|
                    0 <= j < p ==> !lower(key@, (#[trigger] sorted@[j]).view().totals(), order@),
            decreases sorted@.len() - p,
        {
            p += 1;
        }
        proof {
            let views = views_of(before);
            assert forall|j: int| 0 <= j < p implies !lower(
                roll.view().totals(),
                (#[trigger] views[j]).totals(),
                order@,
            ) by {}
            lemma_insertion_point_is(views, roll.view(), order@, p as int);
            let now = all.take(done + 1);
            assert(now.drop_last() =~= all.take(done));
            lemma_views_of_are(before.insert(p as int, roll), views.insert(p as int, roll.view()));
        }
        sorted.insert(p, roll);
        keys.insert(p, key);
    }
    proof {
        assert(all.take(rolls@.len() as int) =~= all);
    }
    sorted
}

} // verus!
