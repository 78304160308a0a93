use std::rc::Rc;

use udice::dice::{Die, Face, DEFAULT_EXPLOSION_DEPTH};
use udice::random::{with_seed, Rng};
use udice::rollers::order::{compare_totals, sort_rolls, Comparison};
use udice::rollers::{
    DieRoll, ExplodedRoll, MathRoller, ModifierRoller, MultiRoller, NamedRoller, PoolRoller, Roll,
    Roller, Strategy, SubRoll, SubRoller, ValueRoller,
};
use udice::units::{BasicUnit, DNumUnit};
use udice::{Name, Unit, Value, Values};

fn name(text: &str) -> Name {
    Name::new(text).unwrap()
}

fn numbered_die(label: &str, sides: i32, unit: &Rc<Unit>) -> Rc<Die> {
    let faces = (1..=sides)
        .map(|n| Face::with_one_val(Name::from_num(n as usize), Value::new(unit, n)))
        .collect();
    Die::new(name(label), faces)
}

fn d6() -> SubRoller {
    SubRoller::Die(numbered_die("d6", 6, &DNumUnit::new()))
}

fn d8() -> SubRoller {
    SubRoller::Die(numbered_die("d8", 8, &DNumUnit::new()))
}

fn showing(die: &Rc<Die>, side: usize) -> SubRoll {
    SubRoll::Die(DieRoll::new(die.clone(), die.faces[side - 1].clone()))
}

fn total_of(values: &Values) -> i32 {
    values.value_for(&DNumUnit::new()).unwrap()
}

#[test]
fn a_die_draws_one_face_for_each_roll() {
    let die = d6();
    let mut rng = with_seed(1);
    let rolled: Vec<String> = (0..6).map(|_| die.inner_roll_with(&mut rng).intermediate_results()).collect();
    assert_eq!(rolled, vec!["d6:[1]", "d6:[6]", "d6:[6]", "d6:[1]", "d6:[1]", "d6:[5]"]);
}

#[test]
fn faces_come_up_in_the_order_of_the_stream_and_replay_with_the_seed() {
    let unit = DNumUnit::new();
    let f1 = Face::with_one_val(name("F1"), Value::new(&unit, 10));
    let f2 = Face::with_one_val(name("F2"), Value::new(&unit, 20));
    let die = Die::new(name("pair"), vec![f1.clone(), f2.clone()]);
    let mut rng = with_seed(1);
    assert_eq!(Die::inner_roll_with(&die, &mut rng).totals(), f1.values.clone());
    assert_eq!(Die::inner_roll_with(&die, &mut rng).totals(), f2.values.clone());
    let mut replay = with_seed(1);
    assert_eq!(die.roll_face_with(&mut replay).to_string(), "F1");
    assert_eq!(die.roll_face_with(&mut replay).to_string(), "F2");
    let copy = Die::clone(&die);
    assert_eq!(copy.description(), "pair");
    assert_eq!(Face::clone(&copy.faces[1]).values, f2.values);
}

#[test]
fn a_pool_keeps_all_rolls_by_default() {
    let pool = SubRoller::Pool(PoolRoller::basic(d6(), 3));
    assert_eq!(pool.description(), "3d6");
    assert!(pool.is_simple());
    assert!(!pool.is_die());
    let roll = pool.inner_roll_with(&mut with_seed(1));
    assert_eq!(roll.intermediate_results(), "d6:[1] + d6:[6] + d6:[6]");
    assert_eq!(total_of(&roll.totals()), 13);
    assert_eq!(roll.final_result(), "13");
    assert!(roll.is_simple());
    assert_eq!(roll.rolled_faces().len(), 3);
}

#[test]
fn a_pool_that_drops_every_roll_is_refused() {
    let order = || vec![DNumUnit::new()];
    assert!(PoolRoller::new(d6(), 2, Strategy::DropLowest { count: 2, order_by: order() }).is_none());
    assert!(PoolRoller::new(d6(), 2, Strategy::DropHighest { count: 3, order_by: order() }).is_none());
    assert!(PoolRoller::new(d6(), 0, Strategy::KeepAll).is_none());
    assert!(PoolRoller::new(d6(), 2, Strategy::DropLowest { count: 1, order_by: order() }).is_some());
    assert!(PoolRoller::new(d6(), 1, Strategy::KeepAll).is_some());
    assert!(d6().n_times_and(4, Strategy::DropHighest { count: 4, order_by: order() }).is_none());
}

#[test]
fn drop_lowest_drops_the_first_of_the_sorted_rolls() {
    let unit = DNumUnit::new();
    let die = numbered_die("d6", 6, &unit);
    let strategy = Strategy::DropLowest { count: 1, order_by: vec![unit.clone()] };
    let rolls = vec![showing(&die, 3), showing(&die, 1), showing(&die, 4), showing(&die, 1)];
    let pool_roll = strategy.select(rolls);
    assert_eq!(pool_roll.kept_rolls.len(), 3);
    assert_eq!(pool_roll.dropped_rolls.len(), 1);
    assert_eq!(total_of(&pool_roll.totals()), 8);
    assert_eq!(total_of(&pool_roll.dropped_rolls[0].totals()), 1);
    assert_eq!(
        pool_roll.intermediate_results(),
        "d6:[1] + d6:[3] + d6:[4], [dropped: d6:[1]]"
    );
    assert!(!pool_roll.is_simple());
    assert_eq!(pool_roll.rolled_faces().len(), 3);
    assert_eq!(pool_roll.final_result(), "8");
}

#[test]
fn drop_highest_drops_the_last_of_the_sorted_rolls() {
    let unit = DNumUnit::new();
    let die = numbered_die("d6", 6, &unit);
    let strategy = Strategy::DropHighest { count: 2, order_by: vec![unit.clone()] };
    let rolls = vec![showing(&die, 3), showing(&die, 1), showing(&die, 4), showing(&die, 1)];
    let pool_roll = strategy.select(rolls);
    assert_eq!(total_of(&pool_roll.totals()), 2);
    assert_eq!(
        pool_roll.intermediate_results(),
        "d6:[1] + d6:[1], [dropped: d6:[3], d6:[4]]"
    );
}

#[test]
fn rolls_that_tie_stay_in_the_order_rolled() {
    let unit = DNumUnit::new();
    let other = BasicUnit::rebuild(9, name("Other"), "{} other".to_string(), false);
    let low = Face::new(name("low"), vec![Value::new(&unit, 1), Value::new(&other, 5)]);
    let tie_a = Face::new(name("a"), vec![Value::new(&unit, 2)]);
    let tie_b = Face::new(name("b"), vec![Value::new(&unit, 2), Value::new(&other, 9)]);
    let none = Face::new(name("none"), vec![Value::new(&other, 7)]);
    let die = Die::new(name("d"), vec![low.clone(), tie_a.clone(), tie_b.clone(), none.clone()]);
    let roll = |face: &Rc<Face>| SubRoll::Die(DieRoll::new(die.clone(), face.clone()));
    let sorted = sort_rolls(vec![roll(&tie_b), roll(&low), roll(&tie_a), roll(&none)], &vec![unit.clone()]);
    let order: Vec<String> = sorted.iter().map(|r| r.intermediate_results()).collect();
    assert_eq!(order, vec!["d:[none]", "d:[low]", "d:[b]", "d:[a]"]);

    let by_both = sort_rolls(
        vec![roll(&tie_b), roll(&low), roll(&tie_a), roll(&none)],
        &vec![unit.clone(), other.clone()],
    );
    let order: Vec<String> = by_both.iter().map(|r| r.intermediate_results()).collect();
    assert_eq!(order, vec!["d:[none]", "d:[low]", "d:[a]", "d:[b]"]);

    let unsorted = sort_rolls(vec![roll(&tie_b), roll(&low)], &vec![]);
    let order: Vec<String> = unsorted.iter().map(|r| r.intermediate_results()).collect();
    assert_eq!(order, vec!["d:[b]", "d:[low]"]);
}

#[test]
fn the_comparator_takes_the_units_in_turn() {
    let unit = DNumUnit::new();
    let other = BasicUnit::rebuild(9, name("Other"), "{} other".to_string(), false);
    let a = Values::from_values(vec![Value::new(&unit, 2), Value::new(&other, 1)]);
    let b = Values::from_values(vec![Value::new(&unit, 2), Value::new(&other, 3)]);
    let no_other = Values::from_values(vec![Value::new(&unit, 2)]);
    let both = vec![unit.clone(), other.clone()];
    assert_eq!(compare_totals(&both, &a, &b), Comparison::Less);
    assert_eq!(compare_totals(&both, &b, &a), Comparison::Greater);
    assert_eq!(compare_totals(&vec![unit.clone()], &a, &b), Comparison::Equal);
    assert_eq!(compare_totals(&both, &no_other, &a), Comparison::Less);
    assert_eq!(compare_totals(&vec![], &a, &b), Comparison::Equal);
    let strategy = Strategy::DropLowest { count: 1, order_by: both };
    let die = numbered_die("d6", 6, &unit);
    assert_eq!(strategy.order_comparator(&showing(&die, 2), &showing(&die, 5)), Comparison::Less);
    assert_eq!(Strategy::KeepAll.order_comparator(&showing(&die, 2), &showing(&die, 5)), Comparison::Equal);
}

#[test]
fn a_pool_is_described_by_count_roller_and_strategy() {
    let order = || vec![DNumUnit::new()];
    let lowest = PoolRoller::new(d6(), 4, Strategy::DropLowest { count: 1, order_by: order() }).unwrap();
    assert_eq!(lowest.description(), "4d6 drop lowest");
    assert!(!lowest.is_simple());
    assert_eq!(lowest.inner_description(), "(4d6 drop lowest)");
    let highest = PoolRoller::new(d6(), 5, Strategy::DropHighest { count: 2, order_by: order() }).unwrap();
    assert_eq!(highest.description(), "5d6 drop highest 2");
    let lowest_two = PoolRoller::new(d6(), 5, Strategy::DropLowest { count: 2, order_by: order() }).unwrap();
    assert_eq!(lowest_two.description(), "5d6 drop lowest 2");
    let one_highest = PoolRoller::new(d6(), 5, Strategy::DropHighest { count: 1, order_by: order() }).unwrap();
    assert_eq!(one_highest.description(), "5d6 drop highest");
    let chain = SubRoller::Math(MathRoller::add(d6(), d8()));
    let of_chain = PoolRoller::basic(chain, 2);
    assert_eq!(of_chain.description(), "2(d6 + d8)");
    assert!(!of_chain.is_simple());
    let of_pool = PoolRoller::basic(SubRoller::Pool(PoolRoller::basic(d6(), 6)), 2);
    assert_eq!(of_pool.description(), "2(6d6)");
    assert_eq!(PoolRoller::better_of(d6(), order()).description(), "2d6 drop lowest");
    assert_eq!(Strategy::KeepAll.count(), 0);
    assert_eq!(Strategy::DropLowest { count: 3, order_by: order() }.count(), 3);
    assert!(Strategy::KeepAll.is_simple());
    assert!(!Strategy::DropHighest { count: 1, order_by: order() }.is_simple());
}

#[test]
fn a_pool_rolls_then_drops() {
    let pool = SubRoller::Pool(
        PoolRoller::new(d6(), 4, Strategy::DropLowest { count: 1, order_by: vec![DNumUnit::new()] }).unwrap(),
    );
    let roll = pool.inner_roll_with(&mut with_seed(42));
    assert_eq!(roll.intermediate_results(), "d6:[5] + d6:[5] + d6:[6], [dropped: d6:[3]]");
    assert_eq!(total_of(&roll.totals()), 16);
    let mut rng = with_seed(42);
    pool.inner_roll_with(&mut rng);
    let mut four_draws = with_seed(42);
    for _ in 0..4 {
        four_draws.next();
    }
    assert_eq!(rng.next(), four_draws.next());
}

fn exploding_six(depth: u8) -> (Rc<Unit>, Rc<Die>) {
    let success = BasicUnit::rebuild(31, name("Success"), "{} Successes".to_string(), false);
    let face = Face::with_one_val(name("6"), Value::new(&success, 1));
    let die = Die {
        name: name("d"),
        faces: vec![face],
        explode_on: None,
        explosion_depth: DEFAULT_EXPLOSION_DEPTH,
    }
    .exploding_on(success.clone())
    .with_explosion_depth(depth);
    (success, Rc::new(die))
}

#[test]
fn an_exploding_die_rerolls_and_adds() {
    let (success, die) = exploding_six(1);
    let roll = Die::inner_roll_with(&die, &mut with_seed(5));
    assert_eq!(roll.totals().value_for(&success), Some(2));
    assert_eq!(roll.intermediate_results(), "d:[6] => (exploded: d:[6])");
    assert_eq!(roll.final_result(), "2 Successes");
    assert!(!roll.is_simple());
    assert_eq!(roll.inner_intermediate_results(), "(d:[6] => (exploded: d:[6]))");
    assert_eq!(roll.rolled_faces().len(), 2);
}

#[test]
fn an_explosion_can_be_put_together_by_hand() {
    let (success, die) = exploding_six(1);
    let face = die.faces[0].clone();
    let mut exploded = ExplodedRoll::new(DieRoll::new(die.clone(), face.clone()));
    exploded.push(SubRoll::Die(DieRoll::new(die.clone(), face.clone())));
    assert_eq!(exploded.totals().value_for(&success), Some(2));
    assert_eq!(exploded.intermediate_results(), "d:[6] => (exploded: d:[6])");
    exploded.push(SubRoll::Die(DieRoll::new(die.clone(), face.clone())));
    assert_eq!(exploded.totals().value_for(&success), Some(3));
    assert_eq!(exploded.intermediate_results(), "d:[6] => (exploded 2 times: d:[6], d:[6])");
    let none = ExplodedRoll::new(DieRoll::new(die.clone(), face));
    assert_eq!(none.intermediate_results(), "d:[6] => (exploded 0 times: )");
    assert!(!none.is_simple());
}

#[test]
fn explosions_nest_to_the_depth_of_the_die() {
    let (success, deep) = exploding_six(3);
    let roll = Die::inner_roll_with(&deep, &mut with_seed(5));
    assert_eq!(roll.totals().value_for(&success), Some(4));
    assert_eq!(
        roll.intermediate_results(),
        "d:[6] => (exploded: (d:[6] => (exploded: (d:[6] => (exploded: d:[6])))))"
    );
    let (success, flat) = exploding_six(0);
    let roll = Die::inner_roll_with(&flat, &mut with_seed(5));
    assert_eq!(roll.totals().value_for(&success), Some(1));
    assert_eq!(roll.intermediate_results(), "d:[6]");
    let (success, default) = exploding_six(DEFAULT_EXPLOSION_DEPTH);
    let roll = Die::inner_roll_with(&default, &mut with_seed(5));
    assert_eq!(roll.totals().value_for(&success), Some(256));
}

#[test]
fn a_face_says_how_often_to_reroll() {
    let hits = BasicUnit::rebuild(32, name("Hits"), "{} hits".to_string(), false);
    let burst = BasicUnit::rebuild(33, name("Burst"), "{} burst".to_string(), true);
    let plain = Face::with_one_val(name("hit"), Value::new(&hits, 1));
    let twice = Face::new(name("burst"), vec![Value::new(&hits, 1), Value::new(&burst, 2)]);
    let never = Face::new(name("dud"), vec![Value::new(&burst, -1)]);
    let die = |faces: Vec<Rc<Face>>| {
        Rc::new(
            Die {
                name: name("b"),
                faces,
                explode_on: None,
                explosion_depth: DEFAULT_EXPLOSION_DEPTH,
            }
            .exploding_on(burst.clone())
            .with_explosion_depth(1),
        )
    };
    let bursting = die(vec![twice.clone()]);
    let roll = Die::inner_roll_with(&bursting, &mut with_seed(3));
    assert_eq!(roll.intermediate_results(), "b:[burst] => (exploded 2 times: b:[burst], b:[burst])");
    assert_eq!(roll.totals().value_for(&hits), Some(3));
    assert_eq!(roll.totals().value_for(&burst), Some(6));
    let mut rng = with_seed(3);
    Die::inner_roll_with(&bursting, &mut rng);
    let mut three_draws = with_seed(3);
    for _ in 0..3 {
        three_draws.next();
    }
    assert_eq!(rng.next(), three_draws.next());

    let dud = die(vec![never.clone()]);
    let roll = Die::inner_roll_with(&dud, &mut with_seed(3));
    assert_eq!(roll.intermediate_results(), "b:[dud] => (exploded 0 times: )");
    assert_eq!(roll.totals().value_for(&burst), Some(-1));

    let calm = die(vec![plain.clone()]);
    let roll = Die::inner_roll_with(&calm, &mut with_seed(3));
    assert_eq!(roll.intermediate_results(), "b:[hit]");
}

#[test]
fn a_chain_adds_and_subtracts() {
    let chain = MathRoller::add(d6(), d8());
    assert_eq!(chain.description(), "d6 + d8");
    assert!(!chain.is_simple());
    let longer = Rc::new(
        MathRoller { inner: vec![] }
            .plus(d6())
            .minus(SubRoller::Math(MathRoller::subtract(d8(), d6())))
            .plus_all(vec![d6(), d8()])
            .minus_all(vec![d6()]),
    );
    assert_eq!(longer.description(), " + d6 - (d8 - d6) + d6 + d8 - d6");
    let roller = SubRoller::Math(MathRoller::subtract(d6(), d8()));
    assert_eq!(roller.description(), "d6 - d8");
    assert_eq!(roller.inner_description(), "(d6 - d8)");
    let roll = roller.inner_roll_with(&mut with_seed(42));
    assert_eq!(roll.intermediate_results(), "d6:[6] - d8:[7]");
    assert_eq!(total_of(&roll.totals()), -1);
    assert_eq!(roll.final_result(), "-1");
    assert!(!roll.is_simple());
    assert_eq!(roll.rolled_faces().len(), 2);
    let nested = SubRoller::Math(d6().minus(roller));
    let roll = nested.inner_roll_with(&mut with_seed(42));
    assert_eq!(roll.intermediate_results(), "d6:[6] - (d6:[3] - d8:[5])");
    assert_eq!(total_of(&roll.totals()), 8);
}

#[test]
fn a_chain_takes_constants() {
    let unit = DNumUnit::new();
    let three = || Values::from_value(Value::new(&unit, 3));
    let chain = SubRoller::Math(d6().plus_modifier(three()));
    assert_eq!(chain.description(), "d6 + (3)");
    let roll = chain.inner_roll_with(&mut with_seed(1));
    assert_eq!(roll.intermediate_results(), "d6:[1] + (3)");
    assert_eq!(total_of(&roll.totals()), 4);
    let named = SubRoller::Math(d6().minus_named_modifier(name("Wounded"), three()));
    assert_eq!(named.description(), "d6 - Wounded");
    let roll = named.inner_roll_with(&mut with_seed(1));
    assert_eq!(roll.intermediate_results(), "d6:[1] - Wounded");
    assert_eq!(total_of(&roll.totals()), -2);
    let both = Rc::new(
        MathRoller { inner: vec![] }
            .plus_modifier(three())
            .minus_modifier(three())
            .plus_named_modifier(name("Up"), three())
            .minus_named_modifier(name("Down"), three()),
    );
    assert_eq!(both.description(), " + (3) - (3) + Up - Down");
    assert_eq!(total_of(&both.inner_roll_with(&mut with_seed(1)).totals()), 0);
    assert_eq!(SubRoller::Math(d6().minus_modifier(three())).description(), "d6 - (3)");
    assert_eq!(SubRoller::Math(d6().plus_named_modifier(name("Up"), three())).description(), "d6 + Up");
}

#[test]
fn a_modifier_is_simple_whatever_it_wraps() {
    let unit = DNumUnit::new();
    let plus_three = |roller: SubRoller| SubRoller::Modifier(ModifierRoller::new(roller, Value::new(&unit, 3)));
    let on_die = plus_three(d6());
    assert!(on_die.is_simple());
    assert_eq!(on_die.description(), "d6 + Total: 3");
    assert_eq!(on_die.inner_description(), "d6 + Total: 3");
    let on_chain = plus_three(SubRoller::Math(MathRoller::add(d6(), d8())));
    assert!(on_chain.is_simple());
    assert_eq!(on_chain.description(), "(d6 + d8) + Total: 3");
    let roll = on_chain.inner_roll_with(&mut with_seed(42));
    assert!(roll.is_simple());
    assert_eq!(roll.intermediate_results(), "(d6:[6] + d8:[7]) + 3");
    assert_eq!(total_of(&roll.totals()), 16);
    assert_eq!(roll.final_result(), "16");
    assert_eq!(roll.rolled_faces().len(), 2);
    let roll = on_die.inner_roll_with(&mut with_seed(42));
    assert_eq!(roll.intermediate_results(), "d6:[6] + 3");
    let twice = plus_three(plus_three(d6()));
    assert_eq!(twice.description(), "d6 + Total: 3 + Total: 3");
    let mut rng = with_seed(42);
    on_die.inner_roll_with(&mut rng);
    let mut one_draw = with_seed(42);
    one_draw.next();
    assert_eq!(rng.next(), one_draw.next());
}

#[test]
fn a_constant_draws_nothing() {
    let unit = DNumUnit::new();
    let hits = BasicUnit::rebuild(40, name("Hits"), "{} hits".to_string(), false);
    let values = || Values::from_values(vec![Value::new(&unit, 2), Value::new(&hits, 1)]);
    let unnamed = SubRoller::Value(ValueRoller::unnamed(values()));
    assert!(!unnamed.is_simple());
    assert_eq!(unnamed.description(), "2\n1 hits");
    assert_eq!(unnamed.inner_description(), "(2\n1 hits)");
    let named = values().to_roller_with_name(name("Bless"));
    assert!(named.is_simple());
    assert!(!named.is_die());
    assert_eq!(named.description(), "Bless");
    let mut rng: Rng = with_seed(9);
    let roll = named.inner_roll_with(&mut rng);
    assert_eq!(rng.next(), with_seed(9).next());
    assert_eq!(roll.intermediate_results(), "Bless");
    assert_eq!(roll.final_result(), "Bless");
    assert!(roll.is_simple());
    assert_eq!(roll.totals(), values());
    assert_eq!(roll.rolled_faces().len(), 0);
    let roll = unnamed.inner_roll_with(&mut rng);
    assert_eq!(roll.intermediate_results(), "2\n1 hits");
    assert_eq!(roll.final_result(), "2\n1 hits");
    assert!(!roll.is_simple());
    let single = Value::new(&hits, 4).to_roller();
    assert_eq!(single.description(), "4 hits");
    let single = Value::new(&hits, 4).to_roller_with_name(name("Four"));
    assert_eq!(single.description(), "Four");
    assert_eq!(values().to_roller().description(), "2\n1 hits");
}

#[test]
fn a_list_of_rollers_rolls_each_under_its_name() {
    let attack = NamedRoller::new(name("Attack"), Roller::Sub(d6()));
    assert_eq!(attack.description(), "Attack: d6");
    let damage = NamedRoller::new(name("Damage"), Roller::Sub(SubRoller::Pool(PoolRoller::basic(d8(), 2))));
    let multi = Roller::Multi(MultiRoller::new(vec![attack.clone(), damage]));
    assert_eq!(multi.description(), "Attack: d6\nDamage: 2d8");
    let roll = multi.roll_with(&mut with_seed(42));
    assert_eq!(roll.intermediate_results(), "Attack: d6:[6]\nDamage: d8:[7] + d8:[5]");
    assert_eq!(roll.final_result(), "Attack: 6\nDamage: 12");
    assert!(matches!(roll, Roll::Multi(_)));

    let numbered = MultiRoller::new_numbered(vec![Roller::Sub(d6()), Roller::Sub(d8())]);
    assert_eq!(numbered.description(), "1: d6\n2: d8");
    let mut grown = MultiRoller { inner: vec![] };
    grown.add(attack);
    grown.add_with_name(name("Parry"), Roller::Sub(d8()));
    grown.add_numbered(Roller::Sub(d6()));
    assert_eq!(grown.description(), "Attack: d6\nParry: d8\n3: d6");
    assert_eq!(MultiRoller { inner: vec![] }.description(), "");
    assert_eq!(NamedRoller::numbered(7, Roller::Sub(d6())).description(), "7: d6");
    assert_eq!(NamedRoller::for_index(7, Roller::Sub(d6())).rc().description(), "8: d6");
    let nested = MultiRoller::new(vec![NamedRoller::new(name("Both"), Roller::Multi(numbered))]);
    assert_eq!(nested.description(), "Both: 1: d6\n2: d8");
    let roll = nested.roll_with(&mut with_seed(42));
    assert_eq!(roll.final_result(), "Both: 1: 6\n2: 7");
    let single = Roller::Named(NamedRoller::for_index(0, Roller::Sub(d6())).rc());
    assert_eq!(single.roll_with(&mut with_seed(42)).intermediate_results(), "1: d6:[6]");
}
