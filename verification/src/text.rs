//! Text helpers: characters of a string, decimal numerals.

use std::fmt::Debug;
use vstd::prelude::*;
use vstd::string::StrSliceExecFns;
use vstd::string::StringExecFns;

verus! {

/// `String::push` appends one character to the end of the string.
pub assume_specification[ std::string::String::push ](s: &mut std::string::String, c: char)
    ensures
        final(s)@ == old(s)@.push(c),
;

/// `str::eq` compares two string slices character by character.
pub assume_specification[ <str as PartialEq>::eq ](a: &str, b: &str) -> (r: bool)
    ensures
        r == (a@ == b@),
;

/// `str`'s `hash` feeds the text into the hasher.
pub assume_specification<H: std::hash::Hasher>[ <str as std::hash::Hash>::hash ](
    text: &str,
    state: &mut H,
);

/// `format!` with `{:?}` renders `value` as its `Debug` implementation does.
#[verifier::external_body]
pub(crate) fn debug_text<T: Debug>(value: &T) -> String {
    format!("{:?}", value)
}

/// The characters of `s`, in order.
pub fn chars_of(s: &str) -> (r: Vec<char>)
    ensures
        r@ == s@,
{
    let mut out: Vec<char> = Vec::new();
    for c in it: s.chars()
        invariant
            out@ == it.seq().take(it.index()),
            it.seq() == s@,
    {
        out.push(c);
    }
    out
}

/// The string made of the characters `cs`, in order.
pub fn text_of(cs: &Vec<char>) -> (r: String)
    ensures
        r@ == cs@,
{
    let mut out = String::new();
    let mut i: usize = 0;
    while i < cs.len()
        invariant
            i <= cs.len(),
            out@ == cs@.take(i as int),
        decreases cs.len() - i,
    {
        out.push(cs[i]);
        i += 1;
    }
    out
}

/// Whether `c` is one of the ten ASCII digits.
pub open spec fn is_digit(c: char) -> bool {
    '0' <= c <= '9'
}

/// The value of the ASCII digit `c`.
pub open spec fn digit_value(c: char) -> nat
    recommends
        is_digit(c),
{
    (c as u32 - '0' as u32) as nat
}

/// The ASCII digit whose value is `d`.
pub open spec fn digit_char(d: nat) -> char
    recommends
        d < 10,
{
    (d + '0' as u32) as char
}

/// Whether every character of `s` is an ASCII digit.
pub open spec fn all_digits(s: Seq<char>) -> bool {
    forall|i: int| 0 <= i < s.len() ==> is_digit(#[trigger] s[i])
}

/// The number that the digits `s` denote in base ten; leading zeros count for
/// nothing and the empty sequence denotes zero.
pub open spec fn digits_value(s: Seq<char>) -> nat
    decreases s.len(),
{
    if s.len() == 0 {
        0
    } else {
        10 * digits_value(s.drop_last()) + digit_value(s.last())
    }
}

/// The number that `s` denotes as an unsigned decimal literal: an optional
/// `+`, then at least one digit and nothing else.
pub open spec fn unsigned_literal(s: Seq<char>) -> Option<nat> {
    let body = if s.len() > 0 && s[0] == '+' {
        s.drop_first()
    } else {
        s
    };
    if body.len() > 0 && all_digits(body) {
        Some(digits_value(body))
    } else {
        None
    }
}

/// The `u32` that `s` denotes, if it is an unsigned decimal literal in range.
pub open spec fn parse_u32_spec(s: Seq<char>) -> Option<u32> {
    match unsigned_literal(s) {
        Some(n) => if n <= u32::MAX {
            Some(n as u32)
        } else {
            None
        },
        None => None,
    }
}

/// The `usize` that `s` denotes, if it is an unsigned decimal literal in range.
pub open spec fn parse_usize_spec(s: Seq<char>) -> Option<usize> {
    match unsigned_literal(s) {
        Some(n) => if n <= usize::MAX {
            Some(n as usize)
        } else {
            None
        },
        None => None,
    }
}

/// Appending one digit multiplies the value by ten and adds the digit.
pub proof fn lemma_digits_value_push(s: Seq<char>, c: char)
    ensures
        digits_value(s.push(c)) == 10 * digits_value(s) + digit_value(c),
{
    assert(s.push(c).drop_last() =~= s);
}

/// Reads an unsigned decimal literal that is at most `limit`.
fn parse_bounded(s: &str, limit: u64) -> (r: Option<u64>)
    ensures
        r == match unsigned_literal(s@) {
            Some(n) => if n <= limit {
                Some(n as u64)
            } else {
                None
            },
            None => None,
        },
{
    let cs = chars_of(s);
    let start: usize = if cs.len() > 0 && cs[0] == '+' {
        1
    } else {
        0
    };
    if cs.len() == start {
        return None;
    }
    let ghost body = cs@.subrange(start as int, cs@.len() as int);
    assert(body =~= if s@.len() > 0 && s@[0] == '+' {
        s@.drop_first()
    } else {
        s@
    });
    let mut acc: u64 = 0;
    let mut over = false;
    let mut i: usize = start;
    while i < cs.len()
        invariant
            start <= i <= cs.len(),
            body == cs@.subrange(start as int, cs@.len() as int),
            body == if s@.len() > 0 && s@[0] == '+' {
                s@.drop_first()
            } else {
                s@
            },
            all_digits(body.take(i - start)),
            over <==> digits_value(body.take(i - start)) > limit,
            !over ==> acc == digits_value(body.take(i - start)),
        decreases cs.len() - i,
    {
        let c = cs[i];
        let ghost before = body.take(i - start);
        let ghost after = body.take(i + 1 - start);
        if !(c >= '0' && c <= '9') {
            proof {
                assert(body[i - start] == c);
                assert(!all_digits(body));
            }
            return None;
        }
        proof {
            assert(after =~= before.push(c));
            lemma_digits_value_push(before, c);
            assert forall|k: int| 0 <= k < after.len() implies is_digit(#[trigger] after[k]) by {
                if k < before.len() {
                    assert(after[k] == before[k]);
                }
            }
        }
        let d: u128 = (c as u32 - '0' as u32) as u128;
        if !over {
            let next: u128 = 10 * (acc as u128) + d;
            if next > limit as u128 {
                over = true;
            } else {
                acc = next as u64;
            }
        }
        i += 1;
    }
    assert(body.take(cs.len() - start) =~= body);
    if over {
        None
    } else {
        Some(acc)
    }
}

/// Reads a `u32` written as an optional `+` and decimal digits.
pub fn parse_u32(s: &str) -> (r: Option<u32>)
    ensures
        r == parse_u32_spec(s@),
{
    match parse_bounded(s, 0xffff_ffff) {
        Some(n) => Some(n as u32),
        None => None,
    }
}

/// Reads a `usize` written as an optional `+` and decimal digits.
pub fn parse_usize(s: &str) -> (r: Option<usize>)
    ensures
        r == parse_usize_spec(s@),
{
    match parse_bounded(s, usize::MAX as u64) {
        Some(n) => Some(n as usize),
        None => None,
    }
}

/// The decimal numeral of `n`, without sign or leading zeros.
pub open spec fn decimal_text(n: nat) -> Seq<char>
    decreases n,
{
    if n < 10 {
        seq![digit_char(n)]
    } else {
        decimal_text(n / 10).push(digit_char(n % 10))
    }
}

/// The decimal numeral of the integer `n`, with a leading `-` below zero.
pub open spec fn signed_decimal_text(n: int) -> Seq<char> {
    if n < 0 {
        seq!['-'] + decimal_text((-n) as nat)
    } else {
        decimal_text(n as nat)
    }
}

/// A decimal numeral is made of digits, is not empty, and denotes its number.
pub proof fn lemma_decimal_text_value(n: nat)
    ensures
        decimal_text(n).len() > 0,
        all_digits(decimal_text(n)),
        digits_value(decimal_text(n)) == n,
        decimal_text(n)[0] != '+',
    decreases n,
{
    if n < 10 {
        let s = seq![digit_char(n)];
        assert(s.drop_last() =~= Seq::<char>::empty());
        assert(digits_value(s.drop_last()) == 0);
        assert(s.last() == digit_char(n));
    } else {
        lemma_decimal_text_value(n / 10);
        let head = decimal_text(n / 10);
        lemma_digits_value_push(head, digit_char(n % 10));
        assert forall|i: int| 0 <= i < decimal_text(n).len() implies is_digit(
            #[trigger] decimal_text(n)[i],
        ) by {
            if i < head.len() {
                assert(decimal_text(n)[i] == head[i]);
            }
        }
        assert(decimal_text(n)[0] == head[0]);
    }
}

/// Reading back the decimal numeral of a `u32` gives that `u32`.
pub proof fn lemma_parse_decimal_text(n: u32)
    ensures
        parse_u32_spec(decimal_text(n as nat)) == Some(n),
{
    lemma_decimal_text_value(n as nat);
}

/// Writes `n` in decimal.
pub fn u64_text(n: u64) -> (r: String)
    ensures
        r@ == decimal_text(n as nat),
{
    let mut digits: Vec<char> = Vec::new();
    let mut rest: u64 = n;
    // Digits come out lowest first; `digits` holds them in that order.
    while rest >= 10
        invariant
            decimal_text(n as nat) == decimal_text(rest as nat) + digits@.reverse(),
        decreases rest,
    {
        let d: u8 = (rest % 10) as u8;
        let c: char = (48u8 + d) as char;
        let ghost old_digits = digits@;
        digits.push(c);
        proof {
            assert(c == digit_char((rest % 10) as nat));
            assert(digits@.reverse() =~= seq![c] + old_digits.reverse());
            assert(decimal_text(rest as nat) == decimal_text((rest / 10) as nat).push(c));
            assert(decimal_text((rest / 10) as nat).push(c) + old_digits.reverse()
                =~= decimal_text((rest / 10) as nat) + (seq![c] + old_digits.reverse()));
        }
        rest = rest / 10;
    }
    let first: char = (48u8 + rest as u8) as char;
    let mut out: Vec<char> = Vec::new();
    out.push(first);
    assert(out@ =~= decimal_text(rest as nat));
    let mut i: usize = digits.len();
    while i > 0
        invariant
            i <= digits.len(),
            out@ == decimal_text(rest as nat) + digits@.reverse().take(digits.len() - i),
        decreases i,
    {
        i -= 1;
        let ghost before = out@;
        out.push(digits[i]);
        proof {
            let rev = digits@.reverse();
            let k = digits.len() - i - 1;
            assert(rev[k] == digits@[i as int]);
            assert(rev.take(k + 1) =~= rev.take(k).push(rev[k]));
            assert(out@ =~= decimal_text(rest as nat) + rev.take(k + 1));
        }
    }
    assert(digits@.reverse().take(digits.len() as int) =~= digits@.reverse());
    text_of(&out)
}

/// Writes `n` in decimal, with a leading `-` below zero.
pub fn i64_text(n: i64) -> (r: String)
    ensures
        r@ == signed_decimal_text(n as int),
{
    if n < 0 {
        let magnitude: u64 = if n == i64::MIN {
            0x8000_0000_0000_0000
        } else {
            (-n) as u64
        };
        let digits = u64_text(magnitude);
        let mut out = String::new();
        out.push('-');
        out.append(digits.as_str());
        assert(out@ =~= seq!['-'] + decimal_text((-n) as nat));
        out
    } else {
        u64_text(n as u64)
    }
}

/// The text of `text`, where there is one.
pub open spec fn optional_text(text: Option<String>) -> Option<Seq<char>> {
    match text {
        Some(text) => Some(text@),
        None => None,
    }
}

/// Whether both hold the same text, or both none.
pub fn same_optional_text(a: &Option<String>, b: &Option<String>) -> (r: bool)
    ensures
        r == (optional_text(*a) == optional_text(*b)),
{
    match (a, b) {
        (Some(a), Some(b)) => a.as_str().eq(b.as_str()),
        (None, None) => true,
        _ => false,
    }
}

/// How a text is written into a key: its length in characters, a colon,
/// and the text. No such writing is the start of another.
pub open spec fn text_key(text: Seq<char>) -> Seq<char> {
    decimal_text(text.len()) + ":"@ + text
}

/// How a number is written into a key: in decimal, with a semicolon behind.
pub open spec fn number_key(n: int) -> Seq<char> {
    signed_decimal_text(n) + ";"@
}

/// How a text that may be missing is written into a key: `-` for none, and
/// `+` with the text behind for one.
pub open spec fn optional_text_key(text: Option<Seq<char>>) -> Seq<char> {
    match text {
        Some(text) => "+"@ + text_key(text),
        None => "-"@,
    }
}

/// How a number that may be missing is written into a key: `-` for none, and
/// `+` with the number behind for one.
pub open spec fn optional_number_key(n: Option<int>) -> Seq<char> {
    match n {
        Some(n) => "+"@ + number_key(n),
        None => "-"@,
    }
}

/// The number of `n`, where there is one.
pub open spec fn optional_u32(n: Option<u32>) -> Option<int> {
    match n {
        Some(n) => Some(n as int),
        None => None,
    }
}

/// The number of `n`, where there is one.
pub open spec fn optional_u64(n: Option<u64>) -> Option<int> {
    match n {
        Some(n) => Some(n as int),
        None => None,
    }
}

/// Writes `text` as it stands in a key.
pub fn text_key_of(text: &str) -> (r: String)
    ensures
        r@ == text_key(text@),
{
    let mut out = u64_text(text.unicode_len() as u64);
    out.append(":");
    out.append(text);
    out
}

/// Writes `n` as it stands in a key.
pub fn number_key_of(n: i64) -> (r: String)
    ensures
        r@ == number_key(n as int),
{
    let mut out = i64_text(n);
    out.append(";");
    out
}

/// Writes `n` as it stands in a key.
pub fn unsigned_key_of(n: u64) -> (r: String)
    ensures
        r@ == number_key(n as int),
{
    let mut out = u64_text(n);
    out.append(";");
    out
}

/// Writes `text` behind `key` as a text that may be missing stands in a
/// key.
pub fn hash_optional_text(text: &Option<String>, key: &mut String)
    ensures
        final(key)@ == old(key)@ + optional_text_key(optional_text(*text)),
{
    match text {
        Some(text) => {
            let mut part = String::new();
            part.append("+");
            assert(part@ =~= "+"@);
            part.append(text_key_of(text.as_str()).as_str());
            key.append(part.as_str());
        },
        None => {
            key.append("-");
        },
    }
}

/// Writes `n` behind `key` as a number that may be missing stands in a key.
pub fn hash_optional_u32(n: &Option<u32>, key: &mut String)
    ensures
        final(key)@ == old(key)@ + optional_number_key(optional_u32(*n)),
{
    match n {
        Some(n) => {
            let mut part = String::new();
            part.append("+");
            assert(part@ =~= "+"@);
            part.append(unsigned_key_of(*n as u64).as_str());
            key.append(part.as_str());
        },
        None => {
            key.append("-");
        },
    }
}

/// Writes `n` behind `key` as a number that may be missing stands in a key.
pub fn hash_optional_u64(n: &Option<u64>, key: &mut String)
    ensures
        final(key)@ == old(key)@ + optional_number_key(optional_u64(*n)),
{
    match n {
        Some(n) => {
            let mut part = String::new();
            part.append("+");
            assert(part@ =~= "+"@);
            part.append(unsigned_key_of(*n).as_str());
            key.append(part.as_str());
        },
        None => {
            key.append("-");
        },
    }
}

} // verus!
