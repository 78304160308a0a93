use udice::dice::Die;
use udice::name::{is_blank_text, Name, NameError};
use udice::premade::{star_wars, warhammer};
use udice::random::with_seed;
use udice::rollers::{Builder, PoolRoller, Strategy, SubRoller};
use udice::storage::SetId;
use udice::units::DNumUnit;
use udice::Value;

fn labels(die: &Die) -> Vec<String> {
    die.faces.iter().map(|face| face.to_string()).collect()
}

#[test]
fn white_space_is_what_the_standard_library_says() {
    for code in 0..=0x10FFFFu32 {
        if let Some(c) = char::from_u32(code) {
            let text = c.to_string();
            assert_eq!(is_blank_text(&text), c.is_whitespace(), "U+{:04X}", code);
            assert_eq!(Name::new(&text).err() == Some(NameError::Empty), c.is_whitespace());
        }
    }
    assert!(is_blank_text(""));
    assert!(is_blank_text(" \t\r\n"));
    assert!(!is_blank_text("  x "));
}

#[test]
fn star_wars_has_seven_dice_in_four_units() {
    let (units, dice) = star_wars::build_with_ids([1, 2, 3, 4]);
    let ids: Vec<u64> = units.iter().map(|unit| unit.id()).collect();
    assert_eq!(ids, vec![1, 2, 3, 4]);
    let unit_names: Vec<String> = units.iter().map(|unit| unit.to_string()).collect();
    assert_eq!(unit_names, vec!["Success", "Advantage", "Triumph", "Force"]);
    let names: Vec<String> = dice.iter().map(|die| die.description()).collect();
    assert_eq!(
        names,
        vec!["Ability", "Proficiency", "Boost", "Difficulty", "Challenge", "Setback", "Force"]
    );
    let sides: Vec<usize> = dice.iter().map(|die| die.faces.len()).collect();
    assert_eq!(sides, vec![8, 12, 6, 8, 8, 6, 12]);
    assert_eq!(
        labels(&dice[0]),
        vec![
            "Success",
            "Success",
            "Success x2",
            "Advantage",
            "Advantage",
            "Success + Advantage",
            "Advantage x2",
            "_"
        ]
    );
    let both = &dice[0].faces[5];
    assert_eq!(both.value_for(&units[0]), Some(1));
    assert_eq!(both.value_for(&units[1]), Some(1));
    assert_eq!(both.value_for(&units[2]), None);
    assert_eq!(dice[1].faces[10].value_for(&units[2]), Some(1));
    assert_eq!(dice[3].faces[6].values.to_string(), "1 Failures\n1 Threat");
    assert_eq!(dice[6].faces[11].values.to_string(), "2 Dark Side");
    assert_eq!(dice[6].faces[0].values.to_string(), "1 Light Side");
    assert_eq!(units[0].output_for(0), "0 Successes");
    assert_eq!(units[1].output_for(0), "");
    let pool = SubRoller::Pool(PoolRoller::basic(SubRoller::Die(dice[0].clone()), 2));
    let roll = pool.inner_roll_with(&mut with_seed(1));
    assert_eq!(roll.intermediate_results(), "Ability:[Advantage x2] + Ability:[Success]");
    assert_eq!(roll.final_result(), "2 Advantage\n1 Successes");
}

#[test]
fn units_with_one_id_are_one_unit() {
    let (units, dice) = star_wars::build_with_ids([7, 7, 8, 9]);
    let both = &dice[0].faces[5];
    assert_eq!(both.values.len(), 1);
    assert_eq!(both.value_for(&units[0]), Some(2));
    assert_eq!(both.value_for(&units[1]), Some(2));
}

#[test]
fn warhammer_has_seven_dice_in_seven_units() {
    let (units, dice) = warhammer::build_with_ids([10, 11, 12, 13, 14, 15, 16]);
    let unit_names: Vec<String> = units.iter().map(|unit| unit.to_string()).collect();
    assert_eq!(
        unit_names,
        vec!["Successes", "Boons", "Delay", "Exertion", "Sigmar's Comet", "Chaos Star", "Reroll"]
    );
    let names: Vec<String> = dice.iter().map(|die| die.description()).collect();
    assert_eq!(
        names,
        vec![
            "Characteristic",
            "Challenge",
            "Expertise",
            "Fortune",
            "Misfortune",
            "Conservative",
            "Reckless"
        ]
    );
    let sides: Vec<usize> = dice.iter().map(|die| die.faces.len()).collect();
    assert_eq!(sides, vec![4, 8, 6, 6, 6, 10, 10]);
    assert_eq!(labels(&dice[0]), vec!["Success", "Success", "Boon", "_"]);
    assert_eq!(
        labels(&dice[6]),
        vec![
            "Success x2",
            "Success x2",
            "Boon x2",
            "Success + Boon",
            "Bane",
            "Bane",
            "Success + Exertion",
            "Success + Exertion",
            "_",
            "_"
        ]
    );
    assert_eq!(dice[2].faces[1].values.to_string(), "1 Successes\nReroll 1 Expertise Dice");
    assert_eq!(dice[1].faces[6].values.to_string(), "1 Chaos Star(s)");
    assert_eq!(dice[1].faces[5].values.to_string(), "2 Banes");
    assert_eq!(dice[5].faces[8].value_for(&units[2]), Some(1));
    assert_eq!(units[2].output_for(0), "");
    assert_eq!(units[4].output_for(2), "2 Sigmar's Comet(s)");
    assert_eq!(units[0].output_for(-1), "1 Challenges");
    assert!(dice.iter().all(|die| die.can_roll() && die.explode_on.is_none()));
}

#[test]
fn a_builder_wraps_step_by_step() {
    let unit = DNumUnit::new();
    let (_, dice) = star_wars::build_with_ids([1, 2, 3, 4]);
    let die = || SubRoller::Die(dice[2].clone());
    let built = Builder(die())
        .n_times(2)
        .with_modifier(unit.clone(), 1)
        .plus(die())
        .minus(die())
        .plus_value(Value::new(&unit, 2))
        .minus_value(Value::new(&unit, 3))
        .pool(3, Strategy::DropHighest { count: 1, order_by: vec![unit.clone()] })
        .finish();
    assert_eq!(
        built.description(),
        "3(((2Boost + Total: 1 + Boost) - Boost) + Total: 2 + Total: -3) drop highest"
    );
    assert!(built.can_roll());
    assert!(!built.is_simple());
}

#[test]
fn a_roller_without_faces_cannot_be_rolled() {
    let empty = Die::new(Name::new("void").unwrap(), vec![]);
    assert!(!empty.can_roll());
    assert!(!SubRoller::Die(empty.clone()).can_roll());
    assert!(!SubRoller::Pool(PoolRoller::basic(SubRoller::Die(empty.clone()), 2)).can_roll());
    assert!(!SubRoller::Math(SubRoller::Die(empty).plus(SubRoller::Die(Die::new(Name::from_num(1), vec![])))).can_roll());
    assert_eq!(SetId(3), SetId(3));
}
