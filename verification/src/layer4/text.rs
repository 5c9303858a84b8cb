//! The lexical elements of textual protocol heads: whitespace, literal
//! words, delimited fields and decimal numbers, each read at a position of
//! the input.
use vstd::prelude::*;
use vstd::slice::slice_subrange;
use vstd::utf8::{decode_utf8, valid_utf8};
use crate::outcome::Needed;

verus! {

/// What reading one element at a position gives: the element and the
/// position behind it, a request for more input, or a mismatch.
pub enum Scan<T> {
    Done { next: int, value: T },
    Incomplete(Needed),
    Error,
}

/// What reading one element at a position of a byte slice gives.
#[derive(Clone, Debug, PartialEq, Eq)]
pub enum Step<T> {
    /// The element was read; the input goes on at `next`.
    Done { next: usize, value: T },
    /// The input ends inside the element.
    Incomplete(Needed),
    /// The input does not hold the element here.
    Failed,
}

impl<T: View> View for Step<T> {
    type V = Scan<T::V>;

    open spec fn view(&self) -> Scan<T::V> {
        match *self {
            Step::Done { next, value } => Scan::Done { next: next as int, value: value@ },
            Step::Incomplete(needed) => Scan::Incomplete(needed),
            Step::Failed => Scan::Error,
        }
    }
}

/// The first of two alternatives that does not end in a mismatch. A request
/// for more input from the first one stands: the second is not tried.
pub open spec fn or_else<T>(first: Scan<T>, second: Scan<T>) -> Scan<T> {
    if first is Error {
        second
    } else {
        first
    }
}

/// A request for `count` further octets.
pub open spec fn wants<T>(count: int) -> Scan<T> {
    Scan::Incomplete(Needed::Size(count as usize))
}

/// Space, horizontal tab, carriage return and line feed.
pub open spec fn is_space(x: u8) -> bool {
    x == 32 || x == 9 || x == 13 || x == 10
}

/// The ASCII digits.
pub open spec fn is_digit(x: u8) -> bool {
    48 <= x <= 57
}

/// The first position from `at` on that holds no whitespace; the length of
/// `s` where only whitespace is left.
pub open spec fn skip_spaces(s: Seq<u8>, at: int) -> int
    decreases s.len() - at,
{
    if 0 <= at < s.len() && is_space(s[at]) {
        skip_spaces(s, at + 1)
    } else {
        at
    }
}

/// The first position from `at` on that holds `x`; the length of `s` where
/// none does.
pub open spec fn find_octet(s: Seq<u8>, at: int, x: u8) -> int
    decreases s.len() - at,
{
    if 0 <= at < s.len() && s[at] != x {
        find_octet(s, at + 1, x)
    } else {
        at
    }
}

/// The first position from `at` on that holds no digit; the length of `s`
/// where only digits are left.
pub open spec fn digits_end(s: Seq<u8>, at: int) -> int
    decreases s.len() - at,
{
    if 0 <= at < s.len() && is_digit(s[at]) {
        digits_end(s, at + 1)
    } else {
        at
    }
}

/// The number that the digits of `s` from `from` up to `to` write in
/// decimal, leading zeros allowed.
pub open spec fn decimal(s: Seq<u8>, from: int, to: int) -> nat
    decreases to - from,
{
    if from < to {
        (decimal(s, from, to - 1) * 10 + (s[to - 1] - 48)) as nat
    } else {
        0
    }
}

/// Reading the literal `word` at `at`. Where the input ends inside the
/// word, and agrees with it so far, the rest of the word is asked for.
pub open spec fn literal(s: Seq<u8>, at: int, word: Seq<u8>) -> Scan<()> {
    let have = if s.len() - at < word.len() {
        s.len() - at
    } else {
        word.len() as int
    };
    if s.subrange(at, at + have) != word.take(have) {
        Scan::Error
    } else if have < word.len() {
        wants(word.len() - have)
    } else {
        Scan::Done { next: at + word.len(), value: () }
    }
}

/// Reading a field that runs from `at` up to the next `stop`, which is not
/// consumed. At the end of the input one octet is asked for; an input that
/// goes on without any `stop` is a mismatch.
pub open spec fn field_end(s: Seq<u8>, at: int, stop: u8) -> Scan<()> {
    if at >= s.len() {
        wants(1)
    } else if find_octet(s, at, stop) >= s.len() {
        Scan::Error
    } else {
        Scan::Done { next: find_octet(s, at, stop), value: () }
    }
}

/// The text that `bytes` encode in UTF-8, where they encode any.
pub open spec fn text_of(bytes: Seq<u8>) -> Option<Seq<char>> {
    if valid_utf8(bytes) {
        Some(decode_utf8(bytes))
    } else {
        None
    }
}

/// Reading a text field that runs from `at` up to the next `stop`. Octets
/// that are no UTF-8 are a mismatch.
pub open spec fn text_field(s: Seq<u8>, at: int, stop: u8) -> Scan<Seq<char>> {
    match field_end(s, at, stop) {
        Scan::Done { next, value } => match text_of(s.subrange(at, next)) {
            Some(text) => Scan::Done { next, value: text },
            None => Scan::Error,
        },
        Scan::Incomplete(needed) => Scan::Incomplete(needed),
        Scan::Error => Scan::Error,
    }
}

/// Reading a decimal number of one or more digits at `at`, up to the first
/// octet that is no digit. At the end of the input more is asked for,
/// without a count; a number above `max` is a mismatch.
pub open spec fn number(s: Seq<u8>, at: int, max: nat) -> Scan<nat> {
    if at >= s.len() {
        Scan::Incomplete(Needed::Unknown)
    } else if !is_digit(s[at]) {
        Scan::Error
    } else if decimal(s, at, digits_end(s, at)) > max {
        Scan::Error
    } else {
        Scan::Done { next: digits_end(s, at), value: decimal(s, at, digits_end(s, at)) }
    }
}

/// `skip_spaces` stays within the input, passes whitespace only and stops
/// at the first octet that is none.
pub proof fn lemma_skip_spaces(s: Seq<u8>, at: int)
    requires
        0 <= at <= s.len(),
    ensures
        at <= skip_spaces(s, at) <= s.len(),
        forall|k: int| at <= k < skip_spaces(s, at) ==> is_space(#[trigger] s[k]),
        skip_spaces(s, at) < s.len() ==> !is_space(s[skip_spaces(s, at)]),
        skip_spaces(s, skip_spaces(s, at)) == skip_spaces(s, at),
    decreases s.len() - at,
{
    if at < s.len() && is_space(s[at]) {
        lemma_skip_spaces(s, at + 1);
    }
}

/// `find_octet` stays within the input, passes only octets other than `x`
/// and stops at the first `x`.
pub proof fn lemma_find_octet(s: Seq<u8>, at: int, x: u8)
    requires
        0 <= at <= s.len(),
    ensures
        at <= find_octet(s, at, x) <= s.len(),
        forall|k: int| at <= k < find_octet(s, at, x) ==> #[trigger] s[k] != x,
        find_octet(s, at, x) < s.len() ==> s[find_octet(s, at, x)] == x,
    decreases s.len() - at,
{
    if at < s.len() && s[at] != x {
        lemma_find_octet(s, at + 1, x);
    }
}

/// `digits_end` stays within the input, passes digits only and stops at the
/// first octet that is none.
pub proof fn lemma_digits_end(s: Seq<u8>, at: int)
    requires
        0 <= at <= s.len(),
    ensures
        at <= digits_end(s, at) <= s.len(),
        forall|k: int| at <= k < digits_end(s, at) ==> is_digit(#[trigger] s[k]),
        digits_end(s, at) < s.len() ==> !is_digit(s[digits_end(s, at)]),
    decreases s.len() - at,
{
    if at < s.len() && is_digit(s[at]) {
        lemma_digits_end(s, at + 1);
    }
}

/// A number does not shrink when digits are appended to it.
pub proof fn lemma_decimal_grows(s: Seq<u8>, from: int, mid: int, to: int)
    requires
        0 <= from <= mid <= to <= s.len(),
        forall|k: int| from <= k < to ==> is_digit(#[trigger] s[k]),
    ensures
        decimal(s, from, mid) <= decimal(s, from, to),
    decreases to - mid,
{
    if mid < to {
        lemma_decimal_grows(s, from, mid, to - 1);
        assert(is_digit(s[to - 1]));
    }
}

/// Moves past the whitespace at `at`.
pub fn skip_whitespace(input: &[u8], at: usize) -> (r: usize)
    requires
        at <= input@.len(),
    ensures
        r == skip_spaces(input@, at as int),
        at <= r <= input@.len(),
{
    let n: usize = input.len();
    let mut i: usize = at;
    while i < n && (input[i] == 32 || input[i] == 9 || input[i] == 13 || input[i] == 10)
        invariant
            at <= i <= n,
            n == input@.len(),
            skip_spaces(input@, at as int) == skip_spaces(input@, i as int),
        decreases n - i,
    {
        i = i + 1;
    }
    i
}

/// Finds the first `x` at or behind `at`.
pub fn find(input: &[u8], at: usize, x: u8) -> (r: usize)
    requires
        at <= input@.len(),
    ensures
        r == find_octet(input@, at as int, x),
        at <= r <= input@.len(),
{
    let n: usize = input.len();
    let mut i: usize = at;
    while i < n && input[i] != x
        invariant
            at <= i <= n,
            n == input@.len(),
            find_octet(input@, at as int, x) == find_octet(input@, i as int, x),
        decreases n - i,
    {
        i = i + 1;
    }
    i
}

/// Reads the literal `word` at `at`.
pub fn tag(input: &[u8], at: usize, word: &[u8]) -> (r: Step<()>)
    requires
        at <= input@.len(),
    ensures
        r@ == literal(input@, at as int, word@),
{
    let n: usize = input.len();
    let w: usize = word.len();
    let have: usize = if n - at < w {
        n - at
    } else {
        w
    };
    let mut i: usize = 0;
    while i < have
        invariant
            0 <= i <= have,
            have <= w,
            at + have <= n,
            n == input@.len(),
            w == word@.len(),
            input@.subrange(at as int, at + i) == word@.take(i as int),
        decreases have - i,
    {
        if input[at + i] != word[i] {
            proof {
                let a = input@.subrange(at as int, at + have);
                let b = word@.take(have as int);
                assert(a[i as int] != b[i as int]);
            }
            return Step::Failed;
        }
        i = i + 1;
        proof {
            assert(input@.subrange(at as int, at + i) =~= word@.take(i as int));
        }
    }
    if have < w {
        Step::Incomplete(Needed::Size(w - have))
    } else {
        Step::Done { next: at + w, value: () }
    }
}

/// Finds the end of the field that runs from `at` up to the next `stop`.
pub fn take_until(input: &[u8], at: usize, stop: u8) -> (r: Step<()>)
    requires
        at <= input@.len(),
    ensures
        r@ == field_end(input@, at as int, stop),
        r matches Step::Done { next, .. } ==> at <= next < input@.len(),
{
    let n: usize = input.len();
    if at >= n {
        return Step::Incomplete(Needed::Size(1));
    }
    let end: usize = find(input, at, stop);
    if end >= n {
        Step::Failed
    } else {
        Step::Done { next: end, value: () }
    }
}

/// `core::str::from_utf8`: the string slice that `bytes` hold where they are
/// well-formed UTF-8, and nothing where they are not. The text of the slice
/// is what the bytes decode to.
#[verifier::external_body]
fn checked_utf8(bytes: &[u8]) -> (r: Option<&str>)
    ensures
        r is Some <==> valid_utf8(bytes@),
        r matches Some(text) ==> text@ == decode_utf8(bytes@),
{
    match core::str::from_utf8(bytes) {
        Ok(text) => Some(text),
        Err(_) => None,
    }
}

/// Reads the octets from `from` up to `to` as text.
pub fn read_text(input: &[u8], from: usize, to: usize) -> (r: Option<String>)
    requires
        from <= to <= input@.len(),
    ensures
        r is Some <==> text_of(input@.subrange(from as int, to as int)) is Some,
        r matches Some(text) ==> Some(text@) == text_of(input@.subrange(from as int, to as int)),
{
    match checked_utf8(slice_subrange(input, from, to)) {
        Some(text) => Some(text.to_owned()),
        None => None,
    }
}

/// Reads the text field that runs from `at` up to the next `stop`.
pub fn take_text_until(input: &[u8], at: usize, stop: u8) -> (r: Step<String>)
    requires
        at <= input@.len(),
    ensures
        r@ == text_field(input@, at as int, stop),
        r matches Step::Done { next, .. } ==> at <= next < input@.len(),
{
    match take_until(input, at, stop) {
        Step::Done { next, value: _ } => match read_text(input, at, next) {
            Some(text) => Step::Done { next, value: text },
            None => Step::Failed,
        },
        Step::Incomplete(needed) => Step::Incomplete(needed),
        Step::Failed => Step::Failed,
    }
}

/// Reads a decimal number of at most `max` at `at`.
pub fn take_number(input: &[u8], at: usize, max: u16) -> (r: Step<u16>)
    requires
        at <= input@.len(),
    ensures
        match r {
            Step::Done { next, value } => number(input@, at as int, max as nat) == (Scan::Done {
                next: next as int,
                value: value as nat,
            }) && at < next <= input@.len() && value <= max,
            Step::Incomplete(needed) => number(input@, at as int, max as nat)
                == Scan::<nat>::Incomplete(needed),
            Step::Failed => number(input@, at as int, max as nat) == Scan::<nat>::Error,
        },
{
    let n: usize = input.len();
    if at >= n {
        return Step::Incomplete(Needed::Unknown);
    }
    if input[at] < 48 || input[at] > 57 {
        return Step::Failed;
    }
    let mut i: usize = at;
    let mut value: u32 = 0;
    let mut over: bool = false;
    while i < n && 48 <= input[i] && input[i] <= 57
        invariant
            at <= i <= n,
            n == input@.len(),
            digits_end(input@, at as int) == digits_end(input@, i as int),
            forall|k: int| at <= k < i ==> is_digit(#[trigger] input@[k]),
            !over ==> value == decimal(input@, at as int, i as int) && value <= max,
            over ==> decimal(input@, at as int, i as int) > max,
        decreases n - i,
    {
        let digit: u32 = (input[i] - 48) as u32;
        proof {
            assert(is_digit(input@[i as int]));
            if over {
                lemma_decimal_grows(input@, at as int, i as int, i + 1);
            }
        }
        if !over {
            value = value * 10 + digit;
            if value > max as u32 {
                over = true;
            }
        }
        i = i + 1;
    }
    if over {
        Step::Failed
    } else {
        Step::Done { next: i, value: value as u16 }
    }
}

} // verus!
