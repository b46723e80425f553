//! Text helpers shared by the rest of the crate: decimal rendering, joining
//! and replacing in character sequences.

use vstd::prelude::*;
use vstd::string::StringExecFns;

verus! {

/// `String::push` of the standard library: the character is appended at the
/// end of the string and nothing else changes.
pub assume_specification[ String::push ](s: &mut String, c: char)
    ensures
        final(s)@ == old(s)@.push(c),
;

/// The character that writes the digit `d`, for `0 <= d <= 9`.
pub open spec fn digit(d: int) -> char {
    (('0' as int) + d) as char
}

/// The decimal notation of `n`, without sign and without leading zeros.
pub open spec fn decimal(n: nat) -> Seq<char>
    decreases n,
{
    if n < 10 {
        seq![digit(n as int)]
    } else {
        decimal(n / 10).push(digit((n % 10) as int))
    }
}

/// The decimal notation of an integer: a minus sign in front of negative
/// numbers, none in front of the others.
pub open spec fn signed_decimal(v: int) -> Seq<char> {
    if v < 0 {
        seq!['-'] + decimal((-v) as nat)
    } else {
        decimal(v as nat)
    }
}

/// The items of `items` written one after the other, with `sep` between each
/// two neighbours.
pub open spec fn joined(items: Seq<Seq<char>>, sep: Seq<char>) -> Seq<char>
    decreases items.len(),
{
    if items.len() == 0 {
        Seq::empty()
    } else {
        let front = joined(items.drop_last(), sep);
        if items.len() == 1 {
            items.last()
        } else {
            front + sep + items.last()
        }
    }
}

/// `text` with every occurrence of `from` replaced by `to`. Occurrences are
/// found from left to right and do not overlap: the search goes on behind
/// the end of the last one found. An empty `from` occurs nowhere.
pub open spec fn replaced(text: Seq<char>, from: Seq<char>, to: Seq<char>) -> Seq<char>
    decreases text.len(),
{
    if from.len() == 0 || text.len() < from.len() {
        text
    } else if text.take(from.len() as int) == from {
        to + replaced(text.skip(from.len() as int), from, to)
    } else {
        seq![text[0]] + replaced(text.skip(1), from, to)
    }
}

fn digit_char(d: u8) -> (c: char)
    requires
        d < 10,
    ensures
        c == digit(d as int),
{
    (48u8 + d) as char
}

/// Writes `n` in decimal.
pub fn decimal_string(n: u64) -> (out: String)
    ensures
        out@ == decimal(n as nat),
    decreases n,
{
    if n < 10 {
        let mut out = String::new();
        out.push(digit_char(n as u8));
        assert(out@ =~= seq![digit(n as int)]);
        out
    } else {
        let mut out = decimal_string(n / 10);
        out.push(digit_char((n % 10) as u8));
        out
    }
}

/// Writes `v` in decimal, with a minus sign if it is negative.
pub fn signed_decimal_string(v: i64) -> (out: String)
    ensures
        out@ == signed_decimal(v as int),
{
    if v < 0 {
        let magnitude: u64 = ((-(v as i128)) as u64);
        let digits = decimal_string(magnitude);
        let mut out = String::new();
        out.push('-');
        out.append(digits.as_str());
        assert(out@ =~= seq!['-'] + decimal((-v) as nat));
        out
    } else {
        decimal_string(v as u64)
    }
}

/// Joins `items` with `sep` between them.
pub fn join(items: &Vec<String>, sep: &str) -> (out: String)
    ensures
        out@ == joined(items.deep_view(), sep@),
{
    let mut out = String::new();
    let ghost all = items.deep_view();
    let mut i: usize = 0;
    while i < items.len()
        invariant
            i <= items.len(),
            all == items.deep_view(),
            out@ == joined(all.take(i as int), sep@),
        decreases items.len() - i,
    {
        if i > 0 {
            out.append(sep);
        }
        out.append(items[i].as_str());
        proof {
            let next = all.take(i + 1);
            assert(next.drop_last() =~= all.take(i as int));
            assert(next.last() == items[i as int]@);
            assert(out@ =~= joined(next, sep@));
        }
        i += 1;
    }
    proof {
        assert(all.take(items.len() as int) =~= all);
    }
    out
}

/// The characters of `text`.
fn chars_of(text: &str) -> (chars: Vec<char>)
    ensures
        chars@ == text@,
{
    let mut chars: Vec<char> = Vec::new();
    for c in it: text.chars()
        invariant
            it.seq() == text@,
            chars@ == text@.take(it.index()),
    {
        chars.push(c);
        assert(text@.take(it.index() + 1) =~= text@.take(it.index()).push(c));
    }
    assert(text@.take(text@.len() as int) =~= text@);
    chars
}

/// Whether `pattern` stands in `text` at the position `at`.
fn occurs_at(text: &Vec<char>, at: usize, pattern: &Vec<char>) -> (found: bool)
    requires
        at + pattern.len() <= text.len(),
    ensures
        found == (text@.skip(at as int).take(pattern.len() as int) == pattern@),
{
    let ghost window = text@.skip(at as int).take(pattern.len() as int);
    let mut k: usize = 0;
    while k < pattern.len()
        invariant
            k <= pattern.len(),
            at + pattern.len() <= text.len(),
            window == text@.skip(at as int).take(pattern.len() as int),
            forall|j: int| 0 <= j < k ==> window[j] == pattern[j],
        decreases pattern.len() - k,
    {
        if text[at + k] != pattern[k] {
            assert(window[k as int] != pattern[k as int]);
            return false;
        }
        k += 1;
    }
    assert(window =~= pattern@);
    true
}

/// Replaces every occurrence of `from` in `text` by `to`.
pub fn replace(text: &str, from: &str, to: &str) -> (out: String)
    ensures
        out@ == replaced(text@, from@, to@),
{
    let source = chars_of(text);
    let pattern = chars_of(from);
    let mut out = String::new();
    if pattern.len() == 0 {
        out.append(text);
        return out;
    }
    let mut i: usize = 0;
    proof {
        assert(source@.skip(0) =~= text@);
        assert(out@ + replaced(text@, from@, to@) =~= replaced(text@, from@, to@));
    }
    while i < source.len()
        invariant
            i <= source.len(),
            source@ == text@,
            pattern@ == from@,
            pattern.len() > 0,
            out@ + replaced(source@.skip(i as int), from@, to@) == replaced(text@, from@, to@),
        decreases source.len() - i,
    {
        let ghost rest = source@.skip(i as int);
        let ghost before = out@;
        if pattern.len() <= source.len() - i && occurs_at(&source, i, &pattern) {
            out.append(to);
            proof {
                assert(rest.skip(pattern.len() as int) =~= source@.skip(i + pattern.len()));
                assert(out@ + replaced(source@.skip(i + pattern.len()), from@, to@) =~= before
                    + replaced(rest, from@, to@));
            }
            i += pattern.len();
        } else {
            out.push(source[i]);
            proof {
                assert(rest.skip(1) =~= source@.skip(i + 1));
                assert(rest[0] == source[i as int]);
                if rest.len() < from@.len() {
                    assert(replaced(rest.skip(1), from@, to@) == rest.skip(1));
                    assert(rest =~= seq![rest[0]] + rest.skip(1));
                }
                assert(out@ + replaced(source@.skip(i + 1), from@, to@) =~= before + replaced(
                    rest,
                    from@,
                    to@,
                ));
            }
            i += 1;
        }
    }
    proof {
        assert(source@.skip(source.len() as int) =~= Seq::<char>::empty());
        assert(out@ =~= out@ + Seq::<char>::empty());
    }
    out
}

} // verus!
