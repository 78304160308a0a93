//! Validated names for dice, faces, units and named rolls.

use vstd::prelude::*;
use vstd::utf8::{encode_utf8, is_ascii_chars, is_ascii_chars_encode_utf8};
use crate::text::{decimal_digits, natural_text};

verus! {

/// The longest name accepted, in bytes of UTF-8.
pub const MAX_NAME_LEN: usize = 35;

/// Why a text was refused as a name.
#[derive(Clone, Copy, Debug, PartialEq, Eq)]
pub enum NameError {
    /// The text is empty or made of white space only.
    Empty,
    /// The text takes more than `MAX_NAME_LEN` bytes.
    TooLong,
}

/// Whether `c` is white space: one of the 25 code points with the Unicode
/// property `White_Space`.
pub open spec fn is_blank_char(c: char) -> bool {
    let u = c as u32;
    ||| 0x09 <= u <= 0x0D
    ||| u == 0x20
    ||| u == 0x85
    ||| u == 0xA0
    ||| u == 0x1680
    ||| 0x2000 <= u <= 0x200A
    ||| u == 0x2028
    ||| u == 0x2029
    ||| u == 0x202F
    ||| u == 0x205F
    ||| u == 0x3000
}

/// Whether `s` is empty or holds white space only.
pub open spec fn is_blank(s: Seq<char>) -> bool {
    forall|i: int| 0 <= i < s.len() ==> is_blank_char(#[trigger] s[i])
}

/// The verdict on `s` as a name: blank texts are `Empty`, then texts over the
/// byte limit are `TooLong`, all others pass.
pub open spec fn name_verdict(s: Seq<char>) -> Option<NameError> {
    if is_blank(s) {
        Some(NameError::Empty)
    } else if encode_utf8(s).len() > MAX_NAME_LEN {
        Some(NameError::TooLong)
    } else {
        None
    }
}

/// 10 to the power `k`.
pub open spec fn pow10(k: nat) -> nat
    decreases k,
{
    if k == 0 {
        1
    } else {
        10 * pow10((k - 1) as nat)
    }
}

/// A number below `10^k` is written with at most `k` digits, all of them ASCII
/// and none of them white space.
pub proof fn lemma_digits_are_short(n: nat, k: nat)
    requires
        k >= 1,
        n < pow10(k),
    ensures
        1 <= decimal_digits(n).len() <= k,
        is_ascii_chars(decimal_digits(n)),
        !is_blank_char(decimal_digits(n)[0]),
    decreases n,
{
    if n >= 10 {
        assert(pow10(1) == 10) by {
            reveal_with_fuel(pow10, 2);
        }
        lemma_digits_are_short(n / 10, (k - 1) as nat);
    }
}

fn is_blank_code(c: char) -> (b: bool)
    ensures
        b == is_blank_char(c),
{
    let u: u32 = c as u32;
    (0x09 <= u && u <= 0x0D) || u == 0x20 || u == 0x85 || u == 0xA0 || u == 0x1680 || (0x2000 <= u
        && u <= 0x200A) || u == 0x2028 || u == 0x2029 || u == 0x202F || u == 0x205F || u == 0x3000
}

/// Whether `text` is empty or holds white space only.
pub fn is_blank_text(text: &str) -> (b: bool)
    ensures
        b == is_blank(text@),
{
    for c in it: text.chars()
        invariant
            it.seq() == text@,
            forall|j: int| 0 <= j < it.index() ==> is_blank_char(#[trigger] text@[j]),
    {
        if !is_blank_code(c) {
            return false;
        }
    }
    true
}

/// A text that passed validation: not blank, and at most `MAX_NAME_LEN` bytes.
#[derive(Debug)]
pub struct Name {
    val: String,
}

impl View for Name {
    type V = Seq<char>;

    closed spec fn view(&self) -> Seq<char> {
        self.val@
    }
}

impl Clone for Name {
    fn clone(&self) -> (r: Self)
        ensures
            r == *self,
    {
        proof {
            use_type_invariant(self);
        }
        Name { val: self.val.clone() }
    }
}

impl Name {
    #[verifier::type_invariant]
    spec fn valid(&self) -> bool {
        name_verdict(self.val@) is None
    }

    /// Validates `val` and makes a name of it.
    pub fn new(val: &str) -> (r: Result<Name, NameError>)
        ensures
            match name_verdict(val@) {
                Some(e) => r == Err::<Name, NameError>(e),
                None => r is Ok && r->Ok_0@ == val@,
            },
    {
        match Self::validate(val.to_owned()) {
            Ok(val) => Ok(Name { val }),
            Err(e) => Err(e),
        }
    }

    /// The name that writes `num` in decimal.
    pub fn from_num(num: usize) -> (r: Name)
        ensures
            r@ == decimal_digits(num as nat),
    {
        let val = natural_text(num as u64);
        proof {
            assert(pow10(20) == 100000000000000000000) by {
                reveal_with_fuel(pow10, 21);
            }
            lemma_digits_are_short(num as nat, 20);
            is_ascii_chars_encode_utf8(val@);
        }
        Name { val }
    }

    fn validate(val: String) -> (r: Result<String, NameError>)
        ensures
            match name_verdict(val@) {
                Some(e) => r == Err::<String, NameError>(e),
                None => r == Ok::<String, NameError>(val),
            },
    {
        if is_blank_text(val.as_str()) {
            Err(NameError::Empty)
        } else if val.as_str().as_bytes().len() > MAX_NAME_LEN {
            Err(NameError::TooLong)
        } else {
            Ok(val)
        }
    }

    /// The text of the name, which passed validation.
    pub fn as_str(&self) -> (s: &str)
        ensures
            s@ == self@,
            name_verdict(s@) is None,
    {
        proof {
            use_type_invariant(self);
        }
        self.val.as_str()
    }

    /// The text of the name, as an owned string.
    pub fn to_string(&self) -> (s: String)
        ensures
            s@ == self@,
    {
        self.val.clone()
    }
}

} // verus!
