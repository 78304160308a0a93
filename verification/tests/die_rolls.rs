use std::rc::Rc;

use udice::dice::{Die, Face};
use udice::random::{default_rng, Rng};
use udice::rollers::{Roller, SubRoller};
use udice::units::{BasicUnit, DNumUnit};
use udice::{Name, Unit, Value, Values};

fn name(text: &str) -> Name {
    Name::new(text).unwrap()
}

fn d2_test_die() -> Rc<Die> {
    let rel = DNumUnit::new();
    let face1 = Face::new(name("1"), vec![Value { unit: rel.clone(), value: 1 }]);
    let face2 = Face::new(name("2"), vec![Value { unit: rel.clone(), value: 2 }]);
    Die::new(name("d2"), vec![face1, face2])
}

fn always_2_rng() -> Rng {
    Rng::from_seed(2)
}

fn always_1_rng() -> Rng {
    Rng::from_seed(1)
}

#[test]
fn d2_roll_totals() {
    let die: Rc<Die> = d2_test_die();
    let die_roller: SubRoller = SubRoller::Die(die.clone());
    let one: &Values = &die.faces.get(0).unwrap().values;
    let two: &Values = &die.faces.get(1).unwrap().values;

    assert_eq!(die_roller.clone().inner_roll_with(&mut always_1_rng()).totals(), one.clone());
    assert_eq!(die_roller.inner_roll_with(&mut always_2_rng()).totals(), two.clone());
}

#[test]
fn d2_roll_intermediate_results() {
    let die = Roller::Sub(SubRoller::Die(d2_test_die()));
    assert_eq!(die.clone().roll_with(&mut always_1_rng()).intermediate_results(), "d2:[1]");
    assert_eq!(die.roll_with(&mut always_2_rng()).intermediate_results(), "d2:[2]");
}

#[test]
fn d2_description() {
    let die = d2_test_die();
    assert_eq!(die.description(), "d2");
}

#[test]
fn d2_is_simple() {
    let die = d2_test_die();
    assert!(die.is_simple());
}

#[test]
fn d2_roll_is_simple() {
    let die = d2_test_die();
    assert!(Die::inner_roll_with(&die, &mut default_rng()).is_simple())
}

#[test]
fn d2_roll_rolled_faces() {
    let die_roll = Die::inner_roll_with(&d2_test_die(), &mut always_1_rng());
    let sut = die_roll.rolled_faces();
    assert_eq!(sut.len(), 1);
    assert_eq!(sut[0].intermediate_results(), "d2:[1]");
}

#[test]
fn d2_roll_final_result() {
    let die_roll = Roller::Sub(SubRoller::Die(d2_test_die())).roll_with(&mut always_1_rng());
    assert_eq!(die_roll.final_result(), "1");
}

fn make_test_die() -> (Rc<Unit>, Rc<Unit>, Rc<Die>) {
    let unit1 = BasicUnit::rebuild(0, name("Successes"), "{} Successes".to_string(), false);
    let unit2 = DNumUnit::new();
    let die = Die::new(
        name("Mixer"),
        vec![
            Face::new(
                name("both"),
                vec![
                    Value { unit: unit1.clone(), value: 1 },
                    Value { unit: unit2.clone(), value: 1 },
                ],
            ),
            Face::new(name("basic"), vec![Value { unit: unit2.clone(), value: 2 }]),
            Face::new(name("successor"), vec![Value { unit: unit1.clone(), value: 2 }]),
        ],
    );
    (unit1, unit2, die)
}

#[test]
fn test_die() {
    let (unit1, unit2, die) = make_test_die();
    assert!(*unit1 == *unit2);
    assert!(die.is_die())
}
