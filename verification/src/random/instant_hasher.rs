//! Numbers made of instants of the clock, for seeds and for the ids of
//! units.

use vstd::prelude::*;
use std::hash::{Hash, Hasher};
use std::time::Instant;

verus! {

#[verifier::external_type_specification]
#[verifier::external_body]
pub struct ExInstant(Instant);

/// Calls `Instant::now`, which reads the clock. Nothing is promised of the
/// instant.
#[verifier::external_body]
pub(crate) fn now() -> Instant {
    Instant::now()
}

/// Calls `Hash::hash` of `Instant`, which writes the parts of the instant to
/// the hasher. Which parts, and in which order, is up to the standard
/// library: nothing is promised of the state of the hasher afterwards.
#[verifier::external_body]
fn write_instant(instant: Instant, hasher: &mut InstantToNum) {
    instant.hash(hasher);
}

/// The number that `bytes` write in base 256 with the lowest digit first.
pub open spec fn le_number(bytes: Seq<u8>) -> int
    decreases bytes.len(),
{
    if bytes.len() == 0 {
        0
    } else {
        bytes[0] + 256 * le_number(bytes.drop_first())
    }
}

/// The number that `bytes` write in base 256 with the lowest digit last.
pub open spec fn be_number(bytes: Seq<u8>) -> int
    decreases bytes.len(),
{
    if bytes.len() == 0 {
        0
    } else {
        bytes.last() + 256 * be_number(bytes.drop_last())
    }
}

/// What the number `n` stands for in two's complement, where `half` is the
/// lowest number that stands for a negative one.
pub open spec fn signed(n: int, half: int) -> int {
    if n >= half {
        n - 2 * half
    } else {
        n
    }
}

/// Whether `n` is what `bytes` hold in the byte order of some machine: read
/// with the lowest byte first or with the lowest byte last, in two's
/// complement.
pub open spec fn native(bytes: Seq<u8>, half: int, n: int) -> bool {
    n == signed(le_number(bytes), half) || n == signed(be_number(bytes), half)
}

/// Calls `i16::from_ne_bytes`, which reads a number from two bytes in the
/// byte order of the machine: little endian or big endian.
#[verifier::external_body]
fn i16_from_ne_bytes(bytes: &[u8]) -> (r: i16)
    requires
        bytes@.len() == 2,
    ensures
        native(bytes@, 0x8000, r as int),
{
    i16::from_ne_bytes(bytes.try_into().unwrap())
}

/// Calls `i32::from_ne_bytes`, which reads a number from four bytes in the
/// byte order of the machine: little endian or big endian.
#[verifier::external_body]
fn i32_from_ne_bytes(bytes: &[u8]) -> (r: i32)
    requires
        bytes@.len() == 4,
    ensures
        native(bytes@, 0x8000_0000, r as int),
{
    i32::from_ne_bytes(bytes.try_into().unwrap())
}

/// Calls `i64::from_ne_bytes`, which reads a number from eight bytes in the
/// byte order of the machine: little endian or big endian.
#[verifier::external_body]
fn i64_from_ne_bytes(bytes: &[u8]) -> (r: i64)
    requires
        bytes@.len() == 8,
    ensures
        native(bytes@, 0x8000_0000_0000_0000, r as int),
{
    i64::from_ne_bytes(bytes.try_into().unwrap())
}

/// Calls `i128::from_ne_bytes`, which reads a number from sixteen bytes in
/// the byte order of the machine: little endian or big endian.
#[verifier::external_body]
fn i128_from_ne_bytes(bytes: &[u8]) -> (r: i128)
    requires
        bytes@.len() == 16,
    ensures
        native(bytes@, 0x8000_0000_0000_0000_0000_0000_0000_0000, r as int),
{
    i128::from_ne_bytes(bytes.try_into().unwrap())
}

/// Whether `word` is the word that a hasher makes of `bytes`: the number
/// that 1, 2, 4, 8 or 16 bytes hold in the byte order of the machine, cut to
/// 64 bits where it is longer; 0 for any other count of bytes.
pub open spec fn is_word(bytes: Seq<u8>, word: i64) -> bool {
    if bytes.len() == 1 {
        native(bytes, 0x80, word as int)
    } else if bytes.len() == 2 {
        native(bytes, 0x8000, word as int)
    } else if bytes.len() == 4 {
        native(bytes, 0x8000_0000, word as int)
    } else if bytes.len() == 8 {
        native(bytes, 0x8000_0000_0000_0000, word as int)
    } else if bytes.len() == 16 {
        exists|n: i128|
            native(bytes, 0x8000_0000_0000_0000_0000_0000_0000_0000, n as int) && word
                == #[trigger] (n as i64)
    } else {
        word == 0
    }
}

/// The state of the hasher after the word `val` was written to it: the first
/// word goes to the upper half of the number, every later word is added, in
/// two's complement.
pub open spec fn folded(state: Option<u64>, val: i64) -> Option<u64> {
    match state {
        Some(old_val) => Some(old_val.wrapping_add(val as u64)),
        None => Some((val as u64) << 32),
    }
}

/// The number that a hasher in the state `state` gives: what was written; 0
/// where nothing was.
pub open spec fn finished(state: Option<u64>) -> u64 {
    match state {
        Some(value) => value,
        None => 0,
    }
}

/// A hasher that makes one number of the words written to it.
pub struct InstantToNum {
    value: Option<u64>,
}

impl InstantToNum {
    /// The state of the hasher.
    pub closed spec fn state(&self) -> Option<u64> {
        self.value
    }

    /// A hasher to which nothing was written.
    pub fn new() -> (r: InstantToNum)
        ensures
            r.state() is None,
    {
        InstantToNum { value: None }
    }

    /// Writes the word `val`.
    pub fn fold(&mut self, val: i64)
        ensures
            final(self).state() == folded(old(self).state(), val),
    {
        self.value = match self.value {
            Some(old_val) => Some(old_val.wrapping_add(val as u64)),
            None => Some((val as u64) << 32),
        }
    }

    /// The number made of the words written.
    pub fn number(&self) -> (r: u64)
        ensures
            r == finished(self.state()),
    {
        match self.value {
            Some(value) => value,
            None => 0,
        }
    }
}

impl Hasher for InstantToNum {
    /// The number made of the words written; 0 where nothing was written.
    fn finish(&self) -> (r: u64)
        ensures
            r == finished(self.state()),
    {
        self.number()
    }

    /// Writes the word that `bytes` hold.
    fn write(&mut self, bytes: &[u8])
        ensures
            exists|word: i64|
                is_word(bytes@, word) && final(self).state() == #[trigger] folded(
                    old(self).state(),
                    word,
                ),
    {
        let mut num: i64 = 0;
        if bytes.len() == 1 {
            proof {
                reveal_with_fuel(le_number, 2);
            }
            num = if bytes[0] >= 0x80 {
                bytes[0] as i64 - 0x100
            } else {
                bytes[0] as i64
            };
        } else if bytes.len() == 2 {
            num = i16_from_ne_bytes(bytes) as i64;
        } else if bytes.len() == 4 {
            num = i32_from_ne_bytes(bytes) as i64;
        } else if bytes.len() == 8 {
            num = i64_from_ne_bytes(bytes);
        } else if bytes.len() == 16 {
            num = i128_from_ne_bytes(bytes) as i64;
        }
        assert(is_word(bytes@, num));
        self.write_i64(num);
    }

    /// Writes the word `val`.
    fn write_i64(&mut self, val: i64)
        ensures
            final(self).state() == folded(old(self).state(), val),
    {
        self.fold(val);
    }
}

/// The number made of `instant`.
pub fn hash(instant: Instant) -> u64 {
    let mut hasher = InstantToNum::new();
    write_instant(instant, &mut hasher);
    hasher.finish()
}

} // verus!
