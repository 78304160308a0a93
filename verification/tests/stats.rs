use std::rc::Rc;

use udice::dice::{Die, Face};
use udice::premade::{fate, hibernation};
use udice::random::with_seed;
use udice::rollers::stats::calculate::{CollectedStatsBuilder, UnitStatsCalculator};
use udice::rollers::{StatType, StatisticsRoll, StatsRoller, SubRoll, SubRoller, DieRoll};
use udice::units::{BasicUnit, DNumUnit};
use udice::{Name, Unit, Value, Values};

fn name(text: &str) -> Name {
    Name::new(text).unwrap()
}

fn sample(unit: &Rc<Unit>, values: &[i32], size: u32) -> UnitStatsCalculator {
    let mut calculator = UnitStatsCalculator::new(Value::new(unit, values[0]), size);
    for value in &values[1..] {
        assert!(calculator.add_on_match(Value::new(unit, *value)));
    }
    calculator.finish();
    calculator
}

#[test]
fn a_die_with_one_face_has_no_spread() {
    let unit = DNumUnit::new();
    let die = Die::new(name("always"), vec![Face::with_one_val(name("4"), Value::new(&unit, 4))]);
    let roller = StatsRoller::new(SubRoller::Die(die), 1000);
    assert_eq!(roller.description(), "Runs 'always' 1000 times");
    let roll = roller.statistics_roll_with(&mut with_seed(20));
    assert_eq!(roll.intermediate_results(), "Result of 1000 rolls");
    assert_eq!(roll.rolls.len(), 1000);
    let stats = roll.stats_for(&unit).unwrap();
    assert_eq!(stats.values.len(), 1000);
    assert_eq!(stats.sum, 4000);
    assert_eq!(stats.median, (4, 4));
    assert_eq!(stats.mode, 4);
    assert_eq!(stats.scaled_variance, 0);
    let count = stats.values.len() as f32;
    let average = stats.sum as f32 / count;
    let median = (stats.median.0 + stats.median.1) as f32 / 2.0;
    let deviation = (stats.scaled_variance as f32).sqrt() / count;
    assert_eq!(average, 4.0);
    assert_eq!(median, 4.0);
    assert_eq!(stats.mode as f32, 4.0);
    assert_eq!(deviation, 0.0);
    assert!(roll.stats_for(&BasicUnit::rebuild(77, name("Other"), "{}".to_string(), false)).is_none());
    assert_eq!(roll.collected_stats.stats.len(), 1);
}

#[test]
fn a_sample_is_filled_up_with_zeros_and_sorted() {
    let unit = DNumUnit::new();
    let calculator = sample(&unit, &[5, -2, 3], 6);
    assert_eq!(calculator.values, vec![-2, 0, 0, 0, 3, 5]);
    assert_eq!(calculator.sum(), 6);
    assert_eq!(calculator.square_sum(), 38);
    assert_eq!(calculator.median(), (0, 0));
    assert_eq!(calculator.mode(), 0);
    assert_eq!(calculator.scaled_variance(), 6 * 38 - 36);
    assert!(calculator.has_same_unit(&unit));
    let stats = calculator.calc_all();
    assert_eq!(stats.sum, 6);
    assert_eq!(stats.values, vec![-2, 0, 0, 0, 3, 5]);
    assert!(stats.has_same_unit(&DNumUnit::new()));

    let full = sample(&unit, &[3, 1, 2], 3);
    assert_eq!(full.values, vec![1, 2, 3]);
    assert_eq!(full.median(), (2, 2));
    let even = sample(&unit, &[4, 1, 3, 2], 4);
    assert_eq!(even.median(), (2, 3));
    assert_eq!(even.sum(), 10);
    assert_eq!(even.scaled_variance(), 4 * 30 - 100);
}

#[test]
fn the_mode_is_the_lowest_of_the_most_frequent() {
    let unit = DNumUnit::new();
    assert_eq!(sample(&unit, &[3, 1, 3, 1, 2], 5).mode(), 1);
    assert_eq!(sample(&unit, &[3, 1, 3, 1, 3], 5).mode(), 3);
    assert_eq!(sample(&unit, &[7], 1).mode(), 7);
    assert_eq!(sample(&unit, &[i32::MAX, i32::MIN, i32::MAX], 3).mode(), i32::MAX);
    assert_eq!(sample(&unit, &[2, 2, 1, 1, 0, 0], 6).mode(), 0);
}

#[test]
fn figures_do_not_need_a_sorted_sample() {
    let unit = DNumUnit::new();
    let mut calculator = UnitStatsCalculator::new(Value::new(&unit, 3), 5);
    for value in [1, 3, 1, 2] {
        assert!(calculator.add_on_match(Value::new(&unit, value)));
    }
    assert!(!calculator.add_on_match(Value::new(&BasicUnit::rebuild(9, name("no"), "{}".to_string(), false), 7)));
    assert_eq!(calculator.values, vec![3, 1, 3, 1, 2]);
    assert_eq!(calculator.mode(), 1);
    assert_eq!(calculator.sum(), 10);
    assert_eq!(calculator.median(), (3, 3));
    let stats = calculator.calc_all();
    assert_eq!(stats.mode, 1);
    assert_eq!(stats.values, vec![3, 1, 3, 1, 2]);
}

#[test]
fn sums_do_not_overflow() {
    let unit = DNumUnit::new();
    let calculator = sample(&unit, &[i32::MAX, i32::MAX, i32::MIN], 3);
    assert_eq!(calculator.sum(), 2 * i32::MAX as i64 + i32::MIN as i64);
    assert_eq!(
        calculator.square_sum(),
        2 * (i32::MAX as i128) * (i32::MAX as i128) + (i32::MIN as i128) * (i32::MIN as i128)
    );
    assert_eq!(calculator.median(), (i32::MAX, i32::MAX));
}

#[test]
fn every_unit_gets_a_sample_in_the_order_first_seen() {
    let hits = BasicUnit::rebuild(1, name("Hits"), "{} hits".to_string(), false);
    let boons = BasicUnit::rebuild(2, name("Boons"), "{} boons".to_string(), false);
    let rolls = vec![
        Values::from_values(vec![Value::new(&boons, 2)]),
        Values::from_values(vec![Value::new(&hits, 1), Value::new(&boons, -1)]),
        Values::new(),
        Values::from_values(vec![Value::new(&hits, 4)]),
    ];
    let builder = CollectedStatsBuilder::new(rolls);
    assert_eq!(builder.stats.len(), 2);
    assert!(builder.stats[0].has_same_unit(&boons));
    assert_eq!(builder.stats[0].values, vec![-1, 0, 0, 2]);
    assert!(builder.stats[1].has_same_unit(&hits));
    assert_eq!(builder.stats[1].values, vec![0, 0, 1, 4]);
    let collected = builder.build();
    let for_hits = collected.for_unit(&hits).unwrap();
    assert_eq!(for_hits.sum, 5);
    assert_eq!(for_hits.median, (0, 1));
    assert_eq!(for_hits.mode, 0);
    assert_eq!(for_hits.scaled_variance, 4 * 17 - 25);
    let for_boons = collected.for_unit(&boons).unwrap();
    assert_eq!(for_boons.sum, 1);
    assert_eq!(for_boons.mode, 0);
    assert!(collected.for_unit(&DNumUnit::new()).is_none());
    assert_eq!(CollectedStatsBuilder::new(vec![]).build().stats.len(), 0);
}

#[test]
fn statistics_are_counted_from_the_rolls() {
    let (unit, die) = hibernation::build_with_id(50);
    let face = |i: usize| SubRoll::Die(DieRoll::new(die.clone(), die.faces[i].clone()));
    let roll = StatisticsRoll::new(vec![face(0), face(3), face(5), face(0), face(0)]);
    let stats = roll.stats_for(&unit).unwrap();
    assert_eq!(stats.values, vec![-1, 0, 1, 1, 1]);
    assert_eq!(stats.sum, 2);
    assert_eq!(stats.median, (1, 1));
    assert_eq!(stats.mode, 1);
    assert_eq!(stats.scaled_variance, 5 * 4 - 4);
    assert_eq!(roll.intermediate_results(), "Result of 5 rolls");
    let collected = StatisticsRoll::run_calcs(&vec![face(3), face(4)]);
    assert_eq!(collected.stats[0].values, vec![-1, -1]);
    let none = StatisticsRoll::new(vec![]);
    assert_eq!(none.collected_stats.stats.len(), 0);
    assert_eq!(none.intermediate_results(), "Result of 0 rolls");
}

#[test]
fn a_stats_roller_draws_once_for_each_run() {
    let (unit, die) = fate::build_with_id(60);
    let roller = SubRoller::Die(die).get_stats(5);
    let mut rng = with_seed(42);
    let roll = roller.roll_with(&mut rng);
    let mut five_draws = with_seed(42);
    let mut expected = Vec::new();
    for _ in 0..5 {
        expected.push(match five_draws.next_index(3) {
            0 => 1,
            1 => -1,
            _ => 0,
        });
    }
    assert_eq!(rng.next(), five_draws.next());
    expected.sort();
    assert_eq!(roll.stats_for(&unit).unwrap().values, expected);
}

#[test]
fn stat_types_have_headings() {
    assert_eq!(StatType::Average.to_string(), "Average");
    assert_eq!(StatType::Median.to_string(), "Median");
    assert_eq!(StatType::Mode.to_string(), "Mode");
    assert_eq!(StatType::StdDeviation.to_string(), "Standard Deviation");
}

#[test]
fn premade_dice_are_ready_to_roll() {
    let (shifts, die) = fate::build_with_id(3);
    assert_eq!(shifts.id(), 3);
    assert_eq!(shifts.to_string(), "Shifts");
    assert_eq!(shifts.output_for(-2), "-2 Shifts");
    assert_eq!(die.description(), "Fate");
    let labels: Vec<String> = die.faces.iter().map(|f| f.to_string()).collect();
    assert_eq!(labels, vec!["+", "-", "_"]);
    let worth: Vec<Option<i32>> = die.faces.iter().map(|f| f.value_for(&shifts)).collect();
    assert_eq!(worth, vec![Some(1), Some(-1), Some(0)]);
    let roll = Die::inner_roll_with(&die, &mut with_seed(1));
    assert_eq!(roll.intermediate_results(), "Fate:[+]");
    assert_eq!(roll.final_result(), "1 Shifts");

    let (successes, die) = hibernation::build_with_id(4);
    assert_eq!(successes.to_string(), "Successes");
    let labels: Vec<String> = die.faces.iter().map(|f| f.to_string()).collect();
    assert_eq!(labels, vec!["+", "+", "+", "-", "-", "_"]);
    assert_eq!(die.faces[5].value_for(&successes), Some(0));
    assert_eq!(die.faces[5].value_for(&shifts), None);
    assert_eq!(Face::blank(&shifts).to_string(), "_");
}
