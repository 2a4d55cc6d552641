//! Reading the output of system tools: words between white space, and
//! decimal numbers.

use vstd::prelude::*;
use crate::protocol::views;
use crate::text::{from_chars, to_chars};

verus! {

/// Whether `c` is white space.
pub open spec fn is_space(c: char) -> bool {
    c == ' ' || ('\u{9}' <= c && c <= '\u{d}') || c == '\u{85}' || c == '\u{a0}' || c == '\u{1680}'
        || ('\u{2000}' <= c && c <= '\u{200a}') || c == '\u{2028}' || c == '\u{2029}' || c
        == '\u{202f}' || c == '\u{205f}' || c == '\u{3000}'
}

/// Whether `c` is white space.
pub fn space(c: char) -> (r: bool)
    ensures
        r == is_space(c),
{
    c == ' ' || ('\u{9}' <= c && c <= '\u{d}') || c == '\u{85}' || c == '\u{a0}' || c == '\u{1680}'
        || ('\u{2000}' <= c && c <= '\u{200a}') || c == '\u{2028}' || c == '\u{2029}' || c
        == '\u{202f}' || c == '\u{205f}' || c == '\u{3000}'
}

/// The first position at or after `i` where `s` holds white space; the
/// length of `s` where there is none.
pub open spec fn word_end(s: Seq<char>, i: int) -> int
    decreases s.len() - i,
{
    if 0 <= i < s.len() && !is_space(s[i]) {
        word_end(s, i + 1)
    } else {
        i
    }
}

/// Whether a word begins at `i`: `s` holds no white space there, and holds
/// some just before, unless `i` is the start.
pub open spec fn word_starts(s: Seq<char>, i: int) -> bool {
    0 <= i < s.len() && !is_space(s[i]) && (i == 0 || is_space(s[i - 1]))
}

/// The words of `s` that begin at or after `i`, in their order.
pub open spec fn words_from(s: Seq<char>, i: int) -> Seq<Seq<char>>
    decreases s.len() - i,
{
    if i < 0 || i >= s.len() {
        Seq::empty()
    } else if word_starts(s, i) {
        seq![s.subrange(i, word_end(s, i))] + words_from(s, i + 1)
    } else {
        words_from(s, i + 1)
    }
}

/// The words of `s`: its longest stretches without white space, in their
/// order.
pub open spec fn words_of(s: Seq<char>) -> Seq<Seq<char>> {
    words_from(s, 0)
}

/// The words of `s`: its longest stretches without white space, in their
/// order.
pub fn words(s: &str) -> (r: Vec<String>)
    ensures
        views(r@) == words_of(s@),
{
    let chars = to_chars(s);
    let mut out: Vec<String> = Vec::new();
    let mut i: usize = 0;
    assert(views(out@) =~= Seq::<Seq<char>>::empty());
    while i < chars.len()
        invariant
            i <= chars.len(),
            chars@ == s@,
            views(out@) + words_from(s@, i as int) == words_of(s@),
            i < chars.len() && !is_space(s@[i as int]) ==> word_starts(s@, i as int),
        decreases chars.len() - i,
    {
        if space(chars[i]) {
            i += 1;
        } else {
            let mut j: usize = i + 1;
            while j < chars.len() && !space(chars[j])
                invariant
                    i < j <= chars.len(),
                    chars@ == s@,
                    !is_space(s@[j - 1]),
                    word_end(s@, i as int) == word_end(s@, j as int),
                    words_from(s@, i + 1) == words_from(s@, j as int),
                decreases chars.len() - j,
            {
                j += 1;
            }
            let ghost before = views(out@);
            let word = from_chars(&chars, i, j);
            out.push(word);
            assert(views(out@) =~= before + seq![s@.subrange(i as int, j as int)]);
            i = j;
        }
    }
    out
}

/// Whether `c` is a decimal digit.
pub open spec fn is_digit(c: char) -> bool {
    '0' <= c && c <= '9'
}

/// The value of the decimal digit `c`.
pub open spec fn digit_value(c: char) -> nat {
    (c as int - '0' as int) as nat
}

/// The value of a decimal numeral.
pub open spec fn digits_value(s: Seq<char>) -> nat
    decreases s.len(),
{
    if s.len() == 0 {
        0
    } else {
        digits_value(s.drop_last()) * 10 + digit_value(s.last())
    }
}

/// Whether `s` is a decimal numeral: one digit or more, and nothing else.
pub open spec fn all_digits(s: Seq<char>) -> bool {
    s.len() > 0 && forall|i: int| 0 <= i < s.len() ==> is_digit(#[trigger] s[i])
}

/// The number that `s` writes: a decimal numeral, with `-` or `+` before it
/// or with neither.
pub open spec fn number_of(s: Seq<char>) -> Option<int> {
    if s.len() > 0 && (s[0] == '-' || s[0] == '+') {
        if !all_digits(s.skip(1)) {
            None
        } else if s[0] == '-' {
            Some(-(digits_value(s.skip(1)) as int))
        } else {
            Some(digits_value(s.skip(1)) as int)
        }
    } else if all_digits(s) {
        Some(digits_value(s) as int)
    } else {
        None
    }
}

/// The number that `s` writes, where it writes one that an `i32` holds.
pub open spec fn i32_of(s: Seq<char>) -> Option<i32> {
    match number_of(s) {
        Some(v) => if i32::MIN <= v <= i32::MAX {
            Some(v as i32)
        } else {
            None
        },
        None => None,
    }
}

/// `v`, or `cap` where `v` is greater.
pub open spec fn capped(v: nat, cap: nat) -> nat {
    if v < cap {
        v
    } else {
        cap
    }
}

/// The number that `s` writes, where it writes one that an `i32` holds.
pub fn parse_i32(s: &str) -> (r: Option<i32>)
    ensures
        r == i32_of(s@),
{
    let chars = to_chars(s);
    let n: usize = chars.len();
    if n == 0 {
        return None;
    }
    let negative = chars[0] == '-';
    let start: usize = if chars[0] == '-' || chars[0] == '+' {
        1
    } else {
        0
    };
    if start == n {
        return None;
    }
    let ghost body = s@.skip(start as int);
    let cap: u64 = 4_000_000_000;
    let mut acc: u64 = 0;
    let mut i: usize = start;
    assert(body.take(0) =~= Seq::<char>::empty());
    while i < n
        invariant
            start <= i <= n,
            n == chars.len(),
            chars@ == s@,
            body == s@.skip(start as int),
            cap == 4_000_000_000,
            n > 0,
            start == if s@[0] == '-' || s@[0] == '+' { 1int } else { 0int },
            acc == capped(digits_value(body.take(i - start)), cap as nat),
            forall|k: int| 0 <= k < i - start ==> is_digit(#[trigger] body[k]),
        decreases n - i,
    {
        let c = chars[i];
        if !('0' <= c && c <= '9') {
            assert(body[i - start] == c);
            assert(s@.skip(0) =~= s@);
            return None;
        }
        let d: u64 = (c as u32 - '0' as u32) as u64;
        let ghost before = digits_value(body.take(i - start));
        assert(body.take(i - start + 1).drop_last() =~= body.take(i - start));
        assert(body.take(i - start + 1).last() == c);
        assert(digits_value(body.take(i - start + 1)) == before * 10 + d);
        let next: u64 = acc * 10 + d;
        acc = if next < cap {
            next
        } else {
            cap
        };
        i += 1;
    }
    assert(body.take(n - start) =~= body);
    assert(all_digits(body));
    assert(s@.skip(0) =~= s@);
    if negative {
        if acc > 2147483648 {
            None
        } else {
            let v: i64 = -(acc as i64);
            Some(v as i32)
        }
    } else {
        if acc > 2147483647 {
            None
        } else {
            Some(acc as i32)
        }
    }
}

} // verus!
