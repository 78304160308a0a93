//! Text building blocks shared by every description and trace.

use vstd::prelude::*;
use vstd::string::{StrSliceExecFns, StringExecFns};

verus! {

/// The character that writes the digit `d`.
pub open spec fn digit_char(d: nat) -> char {
    if d == 0 {
        '0'
    } else if d == 1 {
        '1'
    } else if d == 2 {
        '2'
    } else if d == 3 {
        '3'
    } else if d == 4 {
        '4'
    } else if d == 5 {
        '5'
    } else if d == 6 {
        '6'
    } else if d == 7 {
        '7'
    } else if d == 8 {
        '8'
    } else {
        '9'
    }
}

/// The decimal digits of `n`, most significant first, without leading zeros.
pub open spec fn decimal_digits(n: nat) -> Seq<char>
    decreases n,
{
    if n < 10 {
        seq![digit_char(n)]
    } else {
        decimal_digits(n / 10).push(digit_char(n % 10))
    }
}

/// The decimal notation of `n`: a minus sign for negative numbers, then the digits.
pub open spec fn decimal(n: int) -> Seq<char> {
    if n < 0 {
        seq!['-'] + decimal_digits((-n) as nat)
    } else {
        decimal_digits(n as nat)
    }
}

/// `parts` written one after another with `sep` between neighbours.
pub open spec fn joined(parts: Seq<Seq<char>>, sep: Seq<char>) -> Seq<char>
    decreases parts.len(),
{
    if parts.len() == 0 {
        Seq::empty()
    } else if parts.len() == 1 {
        parts[0]
    } else {
        joined(parts.drop_last(), sep) + sep + parts.last()
    }
}

/// `text` as it stands when `is_simple`, else enclosed in round brackets.
pub open spec fn wrapped(text: Seq<char>, is_simple: bool) -> Seq<char> {
    if is_simple {
        text
    } else {
        "("@ + text + ")"@
    }
}

/// `text` with every occurrence of `from` replaced by `to`: occurrences are
/// found from the left and do not overlap. An empty `from` changes nothing.
pub open spec fn replaced(text: Seq<char>, from: Seq<char>, to: Seq<char>) -> Seq<char>
    decreases text.len(),
{
    if from.len() == 0 || text.len() < from.len() {
        text
    } else if text.subrange(0, from.len() as int) == from {
        to + replaced(text.subrange(from.len() as int, text.len() as int), from, to)
    } else {
        seq![text[0]] + replaced(text.drop_first(), from, to)
    }
}

/// The views of a vector of strings.
pub open spec fn views(parts: Seq<String>) -> Seq<Seq<char>> {
    parts.map_values(|s: String| s@)
}

/// The views of a list with one more string are the views of the list with
/// one more view.
pub proof fn lemma_views_push(parts: Seq<String>, last: String)
    ensures
        views(parts.push(last)) == views(parts).push(last@),
{
}

fn digit_str(d: u64) -> (s: &'static str)
    requires
        d < 10,
    ensures
        s@ == seq![digit_char(d as nat)],
{
    proof {
        reveal_strlit("0");
        reveal_strlit("1");
        reveal_strlit("2");
        reveal_strlit("3");
        reveal_strlit("4");
        reveal_strlit("5");
        reveal_strlit("6");
        reveal_strlit("7");
        reveal_strlit("8");
        reveal_strlit("9");
    }
    let s = if d == 0 {
        "0"
    } else if d == 1 {
        "1"
    } else if d == 2 {
        "2"
    } else if d == 3 {
        "3"
    } else if d == 4 {
        "4"
    } else if d == 5 {
        "5"
    } else if d == 6 {
        "6"
    } else if d == 7 {
        "7"
    } else if d == 8 {
        "8"
    } else {
        "9"
    };
    s
}

/// Appends the decimal digits of `n` to `out`.
pub fn push_digits(out: &mut String, n: u64)
    ensures
        final(out)@ == old(out)@ + decimal_digits(n as nat),
    decreases n,
{
    if n >= 10 {
        push_digits(out, n / 10);
    }
    out.append(digit_str(n % 10));
}

/// The decimal notation of `n`.
pub fn decimal_text(n: i64) -> (s: String)
    ensures
        s@ == decimal(n as int),
{
    let mut out = String::new();
    if n < 0 {
        out.append("-");
        let magnitude: u64 = ((-(n + 1)) as u64) + 1;
        push_digits(&mut out, magnitude);
        proof {
            reveal_strlit("-");
        }
    } else {
        push_digits(&mut out, n as u64);
    }
    out
}

/// The decimal notation of the unsigned number `n`.
pub fn natural_text(n: u64) -> (s: String)
    ensures
        s@ == decimal_digits(n as nat),
{
    let mut out = String::new();
    push_digits(&mut out, n);
    out
}

/// Joins `parts` with `sep` between neighbours.
pub fn join(parts: &Vec<String>, sep: &str) -> (s: String)
    ensures
        s@ == joined(views(parts@), sep@),
{
    let mut out = String::new();
    let mut i: usize = 0;
    while i < parts.len()
        invariant
            i <= parts.len(),
            out@ == joined(views(parts@).take(i as int), sep@),
        decreases parts.len() - i,
    {
        if i > 0 {
            out.append(sep);
        }
        out.append(parts[i].as_str());
        proof {
            let all = views(parts@);
            assert(all.take(i + 1).drop_last() =~= all.take(i as int));
        }
        i += 1;
    }
    assert(views(parts@).take(parts.len() as int) =~= views(parts@));
    out
}

/// The characters of `text`.
fn chars_of(text: &str) -> (r: Vec<char>)
    ensures
        r@ == text@,
{
    let mut out: Vec<char> = Vec::new();
    for c in it: text.chars()
        invariant
            it.seq() == text@,
            out@ == text@.take(it.index() as int),
    {
        out.push(c);
    }
    out
}

/// Whether `from` stands in `text` at the place `at`.
fn stands_at(text: &Vec<char>, from: &Vec<char>, at: usize) -> (b: bool)
    requires
        at + from@.len() <= text@.len(),
    ensures
        b == (text@.subrange(at as int, at + from@.len()) == from@),
{
    let mut k: usize = 0;
    while k < from.len()
        invariant
            k <= from.len(),
            at + from.len() <= text.len(),
            forall|j: int| 0 <= j < k ==> text@[at + j] == from@[j],
        decreases from.len() - k,
    {
        if text[at + k] != from[k] {
            assert(text@.subrange(at as int, at + from@.len())[k as int] != from@[k as int]);
            return false;
        }
        k += 1;
    }
    assert(text@.subrange(at as int, at + from@.len()) =~= from@);
    true
}

/// What is left of `text` from the place `at` on, with every occurrence of
/// `from` replaced by `to`.
spec fn replaced_from(text: Seq<char>, from: Seq<char>, to: Seq<char>, at: int) -> Seq<char> {
    replaced(text.skip(at), from, to)
}

/// How the replacement goes on from a place: over an occurrence of `from`
/// with `to`, over another character with the character, and where less than
/// `from` is left, with what is left.
proof fn lemma_replaced_from(text: Seq<char>, from: Seq<char>, to: Seq<char>, at: int)
    requires
        0 <= at <= text.len(),
        from.len() > 0,
    ensures
        replaced_from(text, from, to, at) == if text.len() - at < from.len() {
            text.skip(at)
        } else if text.subrange(at, at + from.len()) == from {
            to + replaced_from(text, from, to, at + from.len())
        } else {
            seq![text[at]] + replaced_from(text, from, to, at + 1)
        },
{
    let rest = text.skip(at);
    if rest.len() >= from.len() {
        assert(rest.subrange(0, from.len() as int) =~= text.subrange(at, at + from.len()));
        assert(rest.subrange(from.len() as int, rest.len() as int) =~= text.skip(at + from.len()));
        assert(rest.drop_first() =~= text.skip(at + 1));
    }
}

/// `text` with every occurrence of `from` replaced by `to`; occurrences are
/// found from the left and do not overlap. An empty `from` changes nothing.
pub(crate) fn replace_text(text: &str, from: &str, to: &str) -> (s: String)
    ensures
        s@ == replaced(text@, from@, to@),
{
    let chars = chars_of(text);
    let pattern = chars_of(from);
    let n = chars.len();
    let m = pattern.len();
    if m == 0 || n < m {
        return String::from_str(text);
    }
    let mut out = String::new();
    let mut start: usize = 0;
    let mut i: usize = 0;
    assert(text@.skip(0) =~= text@);
    while i <= n - m
        invariant
            chars@ == text@,
            pattern@ == from@,
            n == text@.len(),
            m == from@.len(),
            0 < m <= n,
            start <= i <= n,
            out@ + text@.subrange(start as int, i as int) + replaced_from(text@, from@, to@, i as int)
                == replaced(text@, from@, to@),
        decreases n - i,
    {
        proof {
            lemma_replaced_from(text@, from@, to@, i as int);
        }
        if stands_at(&chars, &pattern, i) {
            out.append(text.substring_char(start, i));
            out.append(to);
            i += m;
            start = i;
            assert(text@.subrange(start as int, i as int) =~= Seq::<char>::empty());
        } else {
            assert(text@.subrange(start as int, i as int) + seq![text@[i as int]]
                =~= text@.subrange(start as int, i + 1));
            i += 1;
        }
    }
    proof {
        lemma_replaced_from(text@, from@, to@, i as int);
        assert(text@.subrange(start as int, i as int) + text@.skip(i as int) =~= text@.subrange(
            start as int,
            n as int,
        ));
    }
    out.append(text.substring_char(start, n));
    out
}

/// Returns `text` unchanged when `is_simple`, else between round brackets.
pub fn wrapped_text(text: &str, is_simple: bool) -> (s: String)
    ensures
        s@ == wrapped(text@, is_simple),
{
    if is_simple {
        String::from_str(text)
    } else {
        let mut out = String::from_str("(");
        out.append(text);
        out.append(")");
        out
    }
}

} // verus!
