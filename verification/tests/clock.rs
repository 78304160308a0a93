use std::hash::Hasher;
use std::time::Instant;

use udice::dice::{Die, Face};
use udice::premade::{fate, hibernation, star_wars, warhammer};
use udice::random::instant_hasher::{hash, InstantToNum};
use udice::random::{default_rng, new_id, Rng};
use udice::rollers::{PoolRoller, Roll, Roller, StatsRoller, SubRoller};
use udice::units::{BasicUnit, DNumUnit, Tier, TieredUnit};
use udice::{Name, Value};

fn name(text: &str) -> Name {
    Name::new(text).unwrap()
}

#[test]
fn a_hasher_puts_the_first_word_on_top_and_adds_the_rest() {
    let mut hasher = InstantToNum::new();
    assert_eq!(hasher.number(), 0);
    hasher.fold(5);
    assert_eq!(hasher.number(), 5 << 32);
    hasher.fold(7);
    assert_eq!(hasher.number(), (5 << 32) + 7);
    hasher.fold(-8);
    assert_eq!(hasher.number(), (5 << 32) - 1);
    let mut negative = InstantToNum::new();
    negative.fold(-1);
    assert_eq!(negative.number(), 0xFFFF_FFFF_0000_0000);
    negative.fold(i64::MIN);
    assert_eq!(negative.number(), 0x7FFF_FFFF_0000_0000);
}

fn written(bytes: &[u8]) -> u64 {
    let mut hasher = InstantToNum::new();
    hasher.write(bytes);
    hasher.finish()
}

fn on_top(word: i64) -> u64 {
    (word as u64) << 32
}

#[test]
fn a_hasher_reads_words_in_the_byte_order_of_the_machine() {
    assert_eq!(written(&[0x7f]), on_top(127));
    assert_eq!(written(&[0x80]), on_top(-128));
    assert_eq!(written(&[0xff]), on_top(-1));
    assert_eq!(written(&[0x34, 0x12]), on_top(i16::from_ne_bytes([0x34, 0x12]) as i64));
    assert_eq!(written(&[0xff, 0xfe]), on_top(i16::from_ne_bytes([0xff, 0xfe]) as i64));
    let four = [0x01, 0x02, 0x03, 0x84];
    assert_eq!(written(&four), on_top(i32::from_ne_bytes(four) as i64));
    let eight = [1, 2, 3, 4, 5, 6, 7, 0x88];
    assert_eq!(written(&eight), on_top(i64::from_ne_bytes(eight)));
    let sixteen = [1, 2, 3, 4, 5, 6, 7, 8, 9, 10, 11, 12, 13, 14, 15, 0x90];
    assert_eq!(written(&sixteen), on_top(i128::from_ne_bytes(sixteen) as i64));
    assert_eq!(written(&[]), 0);
    assert_eq!(written(&[9, 9, 9]), 0);
    assert_eq!(written(&[9, 9, 9, 9, 9]), 0);

    let low_first = i32::from_le_bytes(four) as i64;
    let low_last = i32::from_be_bytes(four) as i64;
    assert!(written(&four) == on_top(low_first) || written(&four) == on_top(low_last));
    assert_eq!(low_first, 0x01 + 0x02 * 256 + 0x03 * 65536 + 0x84 * 16777216 - 4294967296);
    assert_eq!(low_last, 0x84 + 0x03 * 256 + 0x02 * 65536 + 0x01 * 16777216);

    let mut hasher = InstantToNum::new();
    hasher.write_i64(3);
    hasher.write(&[0xff]);
    hasher.write_u32(7);
    assert_eq!(hasher.finish(), (3 << 32) - 1 + 7);
    assert_eq!(InstantToNum::new().finish(), 0);
}

#[test]
fn a_hash_depends_on_the_instant_alone() {
    let instant = Instant::now();
    assert_eq!(hash(instant), hash(instant));
    let _ = new_id();
}

#[test]
fn generators_seeded_from_the_clock_give_indices_in_range() {
    let mut rng = default_rng();
    let mut other = Rng::new();
    for length in 1..50 {
        assert!(rng.next_index(length) < length);
        assert!(other.next_index(length) < length);
    }
}

#[test]
fn units_get_ids_of_their_own() {
    let basic = BasicUnit::new(name("Hits"), "{} hits", true);
    assert_eq!(basic.to_string(), "Hits");
    assert_eq!(basic.output_for(2), "2 hits");
    assert_eq!(basic.output_for(0), "");
    let tiered = TieredUnit::new(name("Luck"), vec![Tier::new(0, 9, "low"), Tier::new(10, 20, "{}!")]);
    assert_eq!(tiered.output_for(3), "low");
    assert_eq!(tiered.output_for(12), "12!");
    assert_eq!(tiered.to_string(), "Luck");
    let three = TieredUnit::pos_zero_neg(name("S"), "{} up", "even", "{|} down");
    assert_eq!(three.output_for(1), "1 up");
    assert_eq!(three.output_for(0), "even");
    assert_eq!(three.output_for(-1), "1 down");
    let two = TieredUnit::pos_neg(name("T"), "{} up", "{|} down");
    assert_eq!(two.output_for(0), "");
    assert_eq!(two.output_for(-4), "4 down");
}

#[test]
fn rolls_on_the_clock_show_a_face_of_the_die() {
    let unit = DNumUnit::new();
    let faces: Vec<_> =
        (1..=6).map(|n| Face::with_one_val(Name::from_num(n), Value::new(&unit, n as i32))).collect();
    let die = Die::new(name("d6"), faces);
    let face = die.roll_face();
    assert!(die.faces.iter().any(|f| f.to_string() == face.to_string()));
    let roller = SubRoller::Pool(PoolRoller::basic(SubRoller::Die(die.clone()), 3));
    let roll = roller.roll();
    assert!(matches!(roll, Roll::Sub(_)));
    let total: i32 = roll.final_result().parse().unwrap();
    assert!((3..=18).contains(&total));
    let roll = Roller::Sub(roller.clone()).roll();
    assert_eq!(roll.intermediate_results().matches("d6:[").count(), 3);
    let stats = StatsRoller::new(roller, 20).statistics_roll();
    let figures = stats.stats_for(&unit).unwrap();
    assert_eq!(figures.values.len(), 20);
    assert!(figures.values.iter().all(|v| (3..=18).contains(v)));
    assert!(figures.values.contains(&figures.mode));
}

#[test]
fn premade_dice_come_with_units_of_their_own() {
    let (unit, die) = fate::build();
    assert_eq!(unit.to_string(), "Shifts");
    assert_eq!(die.faces.len(), 3);
    assert_eq!(die.faces[0].value_for(&unit), Some(1));
    let (unit, die) = hibernation::build();
    assert_eq!(unit.output_for(3), "3 Successes");
    assert_eq!(die.faces.len(), 6);
    let (units, dice) = star_wars::build();
    assert_eq!((units.len(), dice.len()), (4, 7));
    let (units, dice) = warhammer::build();
    assert_eq!((units.len(), dice.len()), (7, 7));
    assert_eq!(dice[6].description(), "Reckless");
    assert_eq!(units[6].to_string(), "Reroll");
}
