use std::rc::Rc;

use udice::name::{Name, NameError};
use udice::text::{decimal_text, join, natural_text, wrapped_text};
use udice::units::{format_total, BasicUnit, DNumUnit, Tier, TieredUnit};
use udice::{Unit, Value, Values};

fn name(text: &str) -> Name {
    Name::new(text).unwrap()
}

fn hits() -> Rc<Unit> {
    BasicUnit::rebuild(11, name("Hits"), "{} hits".to_string(), false)
}

fn boons() -> Rc<Unit> {
    BasicUnit::rebuild(12, name("Boons"), "{} boons".to_string(), true)
}

fn wounds() -> Rc<Unit> {
    BasicUnit::rebuild(13, name("Wounds"), "{|} wounds".to_string(), false)
}

#[test]
fn decimal_text_writes_sign_and_digits() {
    assert_eq!(decimal_text(0), "0");
    assert_eq!(decimal_text(7), "7");
    assert_eq!(decimal_text(-7), "-7");
    assert_eq!(decimal_text(1_000_000), "1000000");
    assert_eq!(decimal_text(i64::MAX), "9223372036854775807");
    assert_eq!(decimal_text(i64::MIN), "-9223372036854775808");
    assert_eq!(natural_text(u64::MAX), "18446744073709551615");
    assert_eq!(natural_text(10), "10");
}

#[test]
fn join_puts_the_separator_between_parts() {
    assert_eq!(join(&vec![], ", "), "");
    assert_eq!(join(&vec!["a".to_string()], ", "), "a");
    assert_eq!(join(&vec!["a".to_string(), "b".to_string(), "".to_string()], ", "), "a, b, ");
}

#[test]
fn wrapped_text_brackets_what_is_not_simple() {
    assert_eq!(wrapped_text("d6", true), "d6");
    assert_eq!(wrapped_text("d6 + d8", false), "(d6 + d8)");
}

#[test]
fn format_total_fills_in_the_total() {
    assert_eq!(format_total("{} of {|}", -3), "-3 of 3");
    assert_eq!(format_total("{}{}", 12), "1212");
    assert_eq!(format_total("none", 12), "none");
    assert_eq!(format_total("{|} left", i32::MIN), "2147483648 left");
    assert_eq!(format_total("{{}}", 5), "{5}");
    assert_eq!(format_total("", 5), "");
    assert_eq!(format_total("{", 5), "{");
    assert_eq!(format_total("{}", -5), "-5");
    assert_eq!(format_total("{|}", -5), "5");
    assert_eq!(format_total("{|{|}", -5), "{|5");
    assert_eq!(format_total("{|{}}", 7), "{|7}");
    assert_eq!(format_total("{}{|}{}", -1), "-11-1");
    assert_eq!(format_total("é{}é{|}ü", -12), "é-12é12ü");
    assert_eq!(format_total("{} of {} {", 3), "3 of 3 {");
    assert_eq!(format_total("{ }", 3), "{ }");
    for format in ["{}}{", "}{|}{", "a{|b}{}{}{|}", "{{{{}}}}", "|{}|"] {
        assert_eq!(
            format_total(format, -40),
            format.replace("{|}", "40").replace("{}", "-40")
        );
    }
}

#[test]
fn name_rejects_blank_and_long_texts() {
    assert_eq!(Name::new("").err(), Some(NameError::Empty));
    assert_eq!(Name::new("   ").err(), Some(NameError::Empty));
    assert_eq!(Name::new("\t\n\u{3000}").err(), Some(NameError::Empty));
    let blank_and_long = " ".repeat(40);
    assert_eq!(Name::new(&blank_and_long).err(), Some(NameError::Empty));
    let just_fits = "x".repeat(35);
    assert_eq!(Name::new(&just_fits).unwrap().as_str(), just_fits);
    let too_long = "x".repeat(36);
    assert_eq!(Name::new(&too_long).err(), Some(NameError::TooLong));
    let two_bytes_each = "é".repeat(17);
    assert_eq!(Name::new(&two_bytes_each).unwrap().to_string(), two_bytes_each);
    let two_bytes_too_many = "é".repeat(18);
    assert_eq!(Name::new(&two_bytes_too_many).err(), Some(NameError::TooLong));
    assert_eq!(Name::new(" d6 ").unwrap().as_str(), " d6 ");
}

#[test]
fn name_from_num_writes_the_number() {
    assert_eq!(Name::from_num(0).as_str(), "0");
    assert_eq!(Name::from_num(42).as_str(), "42");
    assert_eq!(Name::from_num(usize::MAX).to_string(), usize::MAX.to_string());
}

#[test]
fn units_are_equal_when_their_ids_are() {
    let a = BasicUnit::rebuild(5, name("A"), "{}".to_string(), false);
    let b = BasicUnit::rebuild(5, name("B"), "{} b".to_string(), true);
    let c = BasicUnit::rebuild(6, name("A"), "{}".to_string(), false);
    assert!(*a == *b);
    assert!(*a != *c);
    assert_eq!(DNumUnit::new().id(), 0);
    assert_eq!(a.id(), 5);
}

#[test]
fn basic_unit_writes_totals() {
    assert_eq!(hits().output_for(3), "3 hits");
    assert_eq!(hits().output_for(0), "0 hits");
    assert_eq!(boons().output_for(0), "");
    assert_eq!(boons().output_for(-2), "-2 boons");
    assert_eq!(wounds().output_for(-2), "2 wounds");
    assert_eq!(hits().to_string(), "Hits");
    assert_eq!(DNumUnit::new().output_for(-12), "-12");
    assert_eq!(DNumUnit::new().to_string(), "Total");
}

#[test]
fn tiered_unit_takes_the_first_tier_that_fits() {
    let unit = TieredUnit::pos_zero_neg_with_id(21, name("Success"), "{} Successes", "no luck", "{|} Failures");
    assert_eq!(unit.output_for(2), "2 Successes");
    assert_eq!(unit.output_for(0), "no luck");
    assert_eq!(unit.output_for(-3), "3 Failures");
    assert_eq!(unit.output_for(i32::MIN), "2147483648 Failures");
    assert_eq!(unit.output_for(i32::MAX), "2147483647 Successes");
    assert_eq!(unit.id(), 21);

    let force = TieredUnit::pos_neg_with_id(22, name("Force"), "{} Light Side", "{|} Dark Side");
    assert_eq!(force.output_for(4), "4 Light Side");
    assert_eq!(force.output_for(0), "");
    assert_eq!(force.output_for(-1), "1 Dark Side");

    let overlapping = TieredUnit::rebuild(
        23,
        name("Overlap"),
        vec![Tier::new(0, 10, "low {}"), Tier::new(5, 20, "high {}")],
    );
    assert_eq!(overlapping.output_for(7), "low 7");
    assert_eq!(overlapping.output_for(15), "high 15");
    assert_eq!(overlapping.output_for(21), "");
    assert_eq!(overlapping.to_string(), "Overlap");
}

#[test]
fn tier_contains_its_bounds() {
    let tier = Tier::new(-1, 1, "{}");
    assert!(tier.contains(-1));
    assert!(tier.contains(1));
    assert!(!tier.contains(2));
    assert!(!tier.contains(-2));
    assert_eq!(tier.output_for(1), "1");
    assert!(!Tier::new(1, 0, "{}").contains(0));
}

#[test]
fn add_value_sums_into_the_entry_of_the_unit() {
    let (h, b) = (hits(), boons());
    let mut values = Values::new();
    values.add_value(Value::new(&h, 2));
    values.add_value(Value::new(&b, 1));
    values.add_value(Value::new(&h, 3));
    assert_eq!(values.len(), 2);
    assert_eq!(values.get(0).value, 5);
    assert!(values.get(0).is_for_unit(&h));
    assert_eq!(values.get(1).value, 1);
    assert_eq!(values.value_for(&h), Some(5));
    assert_eq!(values.value_for(&b), Some(1));
    assert_eq!(values.value_for(&wounds()), None);
    assert_eq!(values.to_string(), "5 hits\n1 boons");
}

#[test]
fn an_amount_of_zero_is_not_an_absent_amount() {
    let h = hits();
    let mut values = Values::new();
    values.add_value(Value::new(&h, 2));
    values.subtract_value(Value::new(&h, 2));
    assert_eq!(values.value_for(&h), Some(0));
    assert_eq!(values.value_for(&boons()), None);
}

#[test]
fn merging_disjoint_values_keeps_every_amount() {
    let (h, b, w) = (hits(), boons(), wounds());
    let mut v1 = Values::from_values(vec![Value::new(&h, 4), Value::new(&b, -1)]);
    let v2 = Values::from_value(Value::new(&w, 9));
    v1.add_all_values(v2);
    assert_eq!(v1.value_for(&h), Some(4));
    assert_eq!(v1.value_for(&b), Some(-1));
    assert_eq!(v1.value_for(&w), Some(9));
    assert_eq!(v1.len(), 3);
}

#[test]
fn adding_then_subtracting_restores_the_totals() {
    let (h, b, w) = (hits(), boons(), wounds());
    let original = Values::from_values(vec![Value::new(&h, 4), Value::new(&b, -1)]);
    let x = Values::from_values(vec![Value::new(&b, 7), Value::new(&w, 2)]);
    let mut v = original.clone();
    v.add_all_values(x.clone());
    assert_eq!(v.value_for(&b), Some(6));
    v.subtract_all_values(x);
    assert_eq!(v.value_for(&h), Some(4));
    assert_eq!(v.value_for(&b), Some(-1));
    assert_eq!(v.value_for(&w), Some(0));

    let mut at_the_edge = Values::from_value(Value::new(&h, i32::MAX));
    at_the_edge.add_value(Value::new(&h, 5));
    assert_eq!(at_the_edge.value_for(&h), Some(i32::MIN + 4));
    at_the_edge.subtract_value(Value::new(&h, 5));
    assert_eq!(at_the_edge.value_for(&h), Some(i32::MAX));
    at_the_edge.add_value(Value::new(&h, i32::MIN));
    at_the_edge.subtract_value(Value::new(&h, i32::MIN));
    assert_eq!(at_the_edge.value_for(&h), Some(i32::MAX));
}

#[test]
fn values_compare_entry_by_entry() {
    let (h, b) = (hits(), boons());
    let a = Values::from_values(vec![Value::new(&h, 1), Value::new(&b, 2)]);
    let same = Values::from_values(vec![Value::new(&h, 1), Value::new(&b, 2)]);
    let swapped = Values::from_values(vec![Value::new(&b, 2), Value::new(&h, 1)]);
    let other = Values::from_values(vec![Value::new(&h, 1), Value::new(&b, 3)]);
    assert!(a == same);
    assert!(a != swapped);
    assert!(a != other);
    assert!(a != Values::new());
    assert!(Values::with_capacity(4) == Values::new());
}

#[test]
fn from_values_sums_values_of_one_unit() {
    let h = hits();
    let values = Values::from_values(vec![Value::new(&h, 1), Value::new(&h, 2)]);
    assert_eq!(values.len(), 1);
    assert_eq!(values.value_for(&h), Some(3));
}

#[test]
fn value_is_written_with_its_unit() {
    let h = hits();
    let value = Value::new(&h, -3);
    assert_eq!(value.to_string(), "Hits: -3");
    assert_eq!(value.output(), "-3 hits");
    assert_eq!(value.clone().neg().value, 3);
    assert_eq!(Value::new(&h, i32::MIN).neg().value, i32::MIN);
    assert!(value.has_same_unit(&Value::new(&h, 8)));
    assert!(!value.has_same_unit(&Value::new(&boons(), -3)));
    assert!(value == Value::new(&h, -3));
    assert!(value != Value::new(&h, 3));
    let mut sum = Value::new(&h, 1);
    sum.add(2);
    assert_eq!(sum.value, 3);
    sum.subtract(5);
    assert_eq!(sum.value, -2);
    assert_eq!(Values::from_value(value).neg().value_for(&h), Some(3));
}
