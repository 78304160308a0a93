use std::rc::Rc;

use udice::random::{choose_from, test_rng, with_seed, Rng};

#[test]
fn test() {
    let mut rng = with_seed(20_261_028);
    let count = 1_000;
    let mut vals = Vec::with_capacity(count);
    let mut expected = Vec::with_capacity(count);
    for _ in 0..count {
        vals.push(false);
        expected.push(true);
    }
    for _ in 0..(count * 10) {
        let rand = rng.next_index(count);
        vals[rand] = true;
    }
    assert_eq!(vals, expected)
}

#[test]
fn next_multiplies_by_48271_modulo_the_mersenne_prime() {
    let mut rng = Rng::from_seed(1);
    assert_eq!(rng.next(), 48_271);
    assert_eq!(rng.next(), 182_605_794);
    assert_eq!(rng.next(), 1_291_394_886);
    let mut large = Rng::from_seed(u64::MAX);
    assert_eq!(large.next() as u128, (48_271u128 * u64::MAX as u128) % 2_147_483_647);
}

#[test]
fn a_seed_of_zero_is_replaced_by_one() {
    let mut zero = Rng::from_seed(0);
    let mut one = test_rng();
    assert_eq!(zero.next(), one.next());
}

#[test]
fn next_index_takes_the_number_less_one_modulo_the_length() {
    let mut rng = with_seed(1);
    let drawn: Vec<usize> = (0..6).map(|_| rng.next_index(6)).collect();
    assert_eq!(drawn, vec![0, 5, 5, 0, 0, 4]);
    let mut stuck = with_seed(2_147_483_647);
    assert_eq!(stuck.next_index(6), 5);
    assert_eq!(stuck.next_index(1), 0);
}

#[test]
fn the_same_seed_gives_the_same_draws() {
    let mut first = with_seed(42);
    let mut second = with_seed(42);
    for _ in 0..100 {
        assert_eq!(first.next_index(20), second.next_index(20));
    }
}

#[test]
fn choose_from_picks_by_the_next_index() {
    let items = vec![Rc::new('a'), Rc::new('b')];
    let mut rng = with_seed(1);
    assert_eq!(*choose_from(&items, &mut rng), 'a');
    assert_eq!(*choose_from(&items, &mut rng), 'b');
    let mut replay = with_seed(1);
    assert_eq!(*choose_from(&items, &mut replay), 'a');
    assert_eq!(*choose_from(&items, &mut replay), 'b');
}
