//! Reading the pieces of a line of text: prefixes, fields and numbers.

use vstd::prelude::*;
use vstd::slice::{slice_subrange, slice_to_vec};
use crate::text::{chars_of, is_space, is_whitespace};

verus! {

/// Whether `s` begins with `p`.
pub open spec fn has_prefix(s: Seq<char>, p: Seq<char>) -> bool {
    p.len() <= s.len() && s.take(p.len() as int) == p
}

/// `s` without the copies of `p` that it begins with, however many.
pub open spec fn strip_prefixes(s: Seq<char>, p: Seq<char>) -> Seq<char>
    decreases s.len(),
{
    if p.len() > 0 && has_prefix(s, p) {
        strip_prefixes(s.skip(p.len() as int), p)
    } else {
        s
    }
}

/// `s` without the copies of `c` that it ends with, however many.
pub open spec fn strip_trailing(s: Seq<char>, c: char) -> Seq<char>
    decreases s.len(),
{
    if s.len() > 0 && s.last() == c {
        strip_trailing(s.drop_last(), c)
    } else {
        s
    }
}

/// `s` without the separators that it begins with.
pub open spec fn trim_start(s: Seq<char>) -> Seq<char>
    decreases s.len(),
{
    if s.len() > 0 && is_space(s[0]) {
        trim_start(s.drop_first())
    } else {
        s
    }
}

/// `s` without the separators that it ends with.
pub open spec fn trim_end(s: Seq<char>) -> Seq<char>
    decreases s.len(),
{
    if s.len() > 0 && is_space(s.last()) {
        trim_end(s.drop_last())
    } else {
        s
    }
}

/// `s` without the separators at either end.
pub open spec fn trimmed(s: Seq<char>) -> Seq<char> {
    trim_end(trim_start(s))
}

/// The number of characters of `s` that come before its first `sep`; the
/// length of `s` if it holds none.
pub open spec fn field_len(s: Seq<char>, sep: char) -> nat
    decreases s.len(),
{
    if s.len() == 0 || s[0] == sep {
        0
    } else {
        1 + field_len(s.drop_first(), sep)
    }
}

/// The first field ends inside the text.
pub proof fn lemma_field_len_bound(s: Seq<char>, sep: char)
    ensures
        field_len(s, sep) <= s.len(),
    decreases s.len(),
{
    if s.len() != 0 && s[0] != sep {
        lemma_field_len_bound(s.drop_first(), sep);
    }
}

/// The fields of `s`: the pieces between one `sep` and the next. There is one
/// more field than there are separators, and a field may be empty.
pub open spec fn split_on(s: Seq<char>, sep: char) -> Seq<Seq<char>>
    decreases s.len(),
{
    proof {
        lemma_field_len_bound(s, sep);
    }
    let n = field_len(s, sep) as int;
    if n == s.len() {
        seq![s]
    } else {
        seq![s.take(n)] + split_on(s.skip(n + 1), sep)
    }
}

/// The texts that the rows hold.
pub open spec fn rows(parts: Seq<Vec<char>>) -> Seq<Seq<char>> {
    Seq::new(parts.len(), |i: int| parts[i]@)
}

/// Why a text is not a number of the type asked for.
#[derive(Clone, Copy, Debug, PartialEq, Eq, Structural)]
pub enum NumberError {
    /// The text is empty.
    Empty,
    /// A character is no decimal digit, or a sign stands alone.
    InvalidDigit,
    /// The number is above the largest of its type.
    TooLarge,
    /// The number is below the smallest of its type.
    TooSmall,
}

/// Whether `c` is one of `0` to `9`.
pub open spec fn is_digit(c: char) -> bool {
    0x30 <= c as u32 <= 0x39
}

/// The number that the digit `c` stands for.
pub open spec fn digit_value(c: char) -> nat {
    (c as u32 - 0x30) as nat
}

/// The digit that stands for `d`.
pub open spec fn digit_char(d: nat) -> char {
    ((0x30 + d) as u8) as char
}

/// Reads the digits `s` from left to right onto `acc`, never going above
/// `max`: the first character that is no digit, or that takes the number
/// above `max`, ends the reading with its error.
pub open spec fn scan_digits(s: Seq<char>, acc: nat, max: nat) -> Result<nat, NumberError>
    decreases s.len(),
{
    if s.len() == 0 {
        Ok(acc)
    } else if !is_digit(s[0]) {
        Err(NumberError::InvalidDigit)
    } else if acc * 10 + digit_value(s[0]) > max {
        Err(NumberError::TooLarge)
    } else {
        scan_digits(s.drop_first(), acc * 10 + digit_value(s[0]), max)
    }
}

/// The number in `0 ..= max` that `s` writes in decimal digits, with or
/// without a `+` before them.
pub open spec fn parse_unsigned(s: Seq<char>, max: nat) -> Result<nat, NumberError> {
    if s.len() == 0 {
        Err(NumberError::Empty)
    } else {
        let digits = if s[0] == '+' {
            s.drop_first()
        } else {
            s
        };
        if digits.len() == 0 {
            Err(NumberError::InvalidDigit)
        } else {
            scan_digits(digits, 0, max)
        }
    }
}

/// The number in `-below ..= max` that `s` writes in decimal digits, with or
/// without a sign before them.
pub open spec fn parse_signed(s: Seq<char>, below: nat, max: nat) -> Result<int, NumberError> {
    if s.len() > 0 && s[0] == '-' {
        if s.len() == 1 {
            Err(NumberError::InvalidDigit)
        } else {
            match scan_digits(s.drop_first(), 0, below) {
                Ok(n) => Ok(-(n as int)),
                Err(NumberError::TooLarge) => Err(NumberError::TooSmall),
                Err(e) => Err(e),
            }
        }
    } else {
        match parse_unsigned(s, max) {
            Ok(n) => Ok(n as int),
            Err(e) => Err(e),
        }
    }
}

/// The decimal digits of `n`, the first of them not `0` unless `n` is.
pub open spec fn digits_of(n: nat) -> Seq<char>
    decreases n,
{
    if n < 10 {
        seq![digit_char(n)]
    } else {
        digits_of(n / 10).push(digit_char(n % 10))
    }
}

/// How `n` is written: its digits, after a `-` if it is negative.
pub open spec fn numeral(n: int) -> Seq<char> {
    if n < 0 {
        seq!['-'] + digits_of((-n) as nat)
    } else {
        digits_of(n as nat)
    }
}

/// A digit is written as a digit and read back as itself; it is no
/// separator, no sign, no comma and no bracket.
pub proof fn lemma_digit_char(d: nat)
    requires
        d < 10,
    ensures
        is_digit(digit_char(d)),
        digit_value(digit_char(d)) == d,
        !is_space(digit_char(d)),
        digit_char(d) != ',',
        digit_char(d) != '+',
        digit_char(d) != '-',
        digit_char(d) != ')',
{
}

/// The digits of a number are digits, and there is at least one.
pub proof fn lemma_digits_of(n: nat)
    ensures
        digits_of(n).len() > 0,
        forall|i: int| 0 <= i < digits_of(n).len() ==> is_digit(#[trigger] digits_of(n)[i]),
    decreases n,
{
    if n < 10 {
        lemma_digit_char(n);
    } else {
        lemma_digits_of(n / 10);
        lemma_digit_char(n % 10);
    }
}

/// One more digit at the end of what was read takes the number ten times up
/// and adds the digit.
pub proof fn lemma_scan_push(s: Seq<char>, acc: nat, max: nat, d: nat)
    requires
        d < 10,
        scan_digits(s, acc, max) is Ok,
        scan_digits(s, acc, max)->Ok_0 * 10 + d <= max,
    ensures
        scan_digits(s.push(digit_char(d)), acc, max) == Ok::<nat, NumberError>(
            scan_digits(s, acc, max)->Ok_0 * 10 + d,
        ),
    decreases s.len(),
{
    lemma_digit_char(d);
    let t = s.push(digit_char(d));
    if s.len() == 0 {
        assert(scan_digits(t.drop_first(), acc * 10 + d, max) == Ok::<nat, NumberError>(
            acc * 10 + d,
        ));
    } else {
        assert(t.drop_first() == s.drop_first().push(digit_char(d)));
        lemma_scan_push(s.drop_first(), acc * 10 + digit_value(s[0]), max, d);
    }
}

/// The digits of a number are read back as that number.
pub proof fn lemma_digits_round_trip(n: nat, max: nat)
    requires
        n <= max,
    ensures
        scan_digits(digits_of(n), 0, max) == Ok::<nat, NumberError>(n),
        parse_unsigned(digits_of(n), max) == Ok::<nat, NumberError>(n),
    decreases n,
{
    lemma_digits_of(n);
    if n < 10 {
        lemma_digit_char(n);
        assert(scan_digits(digits_of(n).drop_first(), n, max) == Ok::<nat, NumberError>(n));
    } else {
        lemma_digits_round_trip(n / 10, max);
        lemma_scan_push(digits_of(n / 10), 0, max, n % 10);
    }
}

/// A number as it is written is read back as that number.
pub proof fn lemma_numeral_round_trip(n: int, below: nat, max: nat)
    requires
        -below <= n <= max,
    ensures
        parse_signed(numeral(n), below, max) == Ok::<int, NumberError>(n),
{
    if n < 0 {
        let magnitude = (-n) as nat;
        lemma_digits_of(magnitude);
        lemma_digits_round_trip(magnitude, below);
        assert(numeral(n).drop_first() == digits_of(magnitude));
    } else {
        lemma_digits_of(n as nat);
        lemma_digits_round_trip(n as nat, max);
    }
}

/// A number as it is written holds no separator, no comma and no closing
/// bracket, and does not begin with a capital letter.
pub proof fn lemma_numeral_is_solid(n: int)
    ensures
        numeral(n).len() > 0,
        forall|i: int|
            0 <= i < numeral(n).len() ==> {
                let c = #[trigger] numeral(n)[i];
                !is_space(c) && c != ',' && c != ')' && !(0x41 <= c as u32 <= 0x5a)
            },
{
    if n < 0 {
        let digits = digits_of((-n) as nat);
        lemma_digits_of((-n) as nat);
        assert forall|i: int| 0 < i < numeral(n).len() implies is_digit(
            #[trigger] numeral(n)[i],
        ) by {
            assert(numeral(n)[i] == digits[i - 1]);
        }
    } else {
        lemma_digits_of(n as nat);
    }
}

/// A text that neither begins nor ends with a separator is its own trimming.
pub proof fn lemma_trimmed_solid(s: Seq<char>)
    requires
        s.len() == 0 || (!is_space(s[0]) && !is_space(s.last())),
    ensures
        trimmed(s) == s,
{
}

/// Separators before a text that neither begins nor ends with one are
/// trimmed away.
pub proof fn lemma_trimmed_after_space(s: Seq<char>)
    requires
        s.len() > 0,
        !is_space(s[0]),
        !is_space(s.last()),
    ensures
        trimmed(seq![' '] + s) == s,
{
    let t = seq![' '] + s;
    assert(t.drop_first() == s);
    assert(trim_start(s) == s);
}

/// Before a text without `sep`, a field is longer by that text.
pub proof fn lemma_field_len_concat(a: Seq<char>, rest: Seq<char>, sep: char)
    requires
        forall|i: int| 0 <= i < a.len() ==> #[trigger] a[i] != sep,
    ensures
        field_len(a + rest, sep) == a.len() + field_len(rest, sep),
    decreases a.len(),
{
    if a.len() == 0 {
        assert(a + rest == rest);
    } else {
        assert((a + rest).drop_first() == a.drop_first() + rest);
        lemma_field_len_concat(a.drop_first(), rest, sep);
    }
}

/// Two texts without `sep`, with one `sep` between them, are the two fields
/// of what they make.
pub proof fn lemma_split_two(a: Seq<char>, b: Seq<char>, sep: char)
    requires
        forall|i: int| 0 <= i < a.len() ==> #[trigger] a[i] != sep,
        forall|i: int| 0 <= i < b.len() ==> #[trigger] b[i] != sep,
    ensures
        split_on(a + seq![sep] + b, sep) == seq![a, b],
{
    let whole = a + seq![sep] + b;
    let tail = seq![sep] + b;
    assert(whole == a + tail);
    lemma_field_len_concat(a, tail, sep);
    assert(whole.take(a.len() as int) == a);
    assert(whole.skip(a.len() as int + 1) == b);
    lemma_field_len_concat(b, Seq::<char>::empty(), sep);
    assert(split_on(b, sep) == seq![b]);
}

/// What was wrapped once is unwrapped again, where it does not itself begin
/// like the wrapping nor end like it.
pub proof fn lemma_unwrap(open: Seq<char>, body: Seq<char>, close: char)
    requires
        open.len() > 0,
        !has_prefix(body + seq![close], open),
        body.len() == 0 || body.last() != close,
    ensures
        has_prefix(open + body + seq![close], open),
        strip_trailing(strip_prefixes(open + body + seq![close], open), close) == body,
{
    let whole = open + body + seq![close];
    let inner = body + seq![close];
    assert(whole.take(open.len() as int) == open);
    assert(whole.skip(open.len() as int) == inner);
    assert(strip_prefixes(inner, open) == inner);
    assert(inner.drop_last() == body);
    assert(strip_trailing(body, close) == body);
}

/// The characters `v[from..to]`.
fn slice_of(v: &Vec<char>, from: usize, to: usize) -> (r: Vec<char>)
    requires
        from <= to <= v.len(),
    ensures
        r@ == v@.subrange(from as int, to as int),
{
    slice_to_vec(slice_subrange(v.as_slice(), from, to))
}

/// Whether `v` and `w` hold the same text.
pub fn same_text(v: &Vec<char>, w: &Vec<char>) -> (r: bool)
    ensures
        r == (v@ == w@),
{
    if v.len() != w.len() {
        return false;
    }
    let mut k: usize = 0;
    while k < v.len()
        invariant
            v.len() == w.len(),
            k <= v.len(),
            forall|j: int| 0 <= j < k ==> v@[j] == w@[j],
        decreases v.len() - k,
    {
        if v[k] != w[k] {
            return false;
        }
        k += 1;
    }
    assert(v@ =~= w@);
    true
}

/// Whether `v` holds the text `word`.
pub fn is_word(v: &Vec<char>, word: &str) -> (r: bool)
    ensures
        r == (v@ == word@),
{
    let w = chars_of(word);
    same_text(v, &w)
}

/// Whether what follows the first `at` characters of `v` begins with `p`.
fn starts_with_at(v: &Vec<char>, at: usize, p: &Vec<char>) -> (r: bool)
    requires
        at <= v.len(),
    ensures
        r == has_prefix(v@.skip(at as int), p@),
{
    if p.len() > v.len() - at {
        return false;
    }
    let ghost rest = v@.skip(at as int);
    let mut k: usize = 0;
    while k < p.len()
        invariant
            at <= v.len(),
            p.len() <= v.len() - at,
            k <= p.len(),
            rest == v@.skip(at as int),
            forall|j: int| 0 <= j < k ==> rest[j] == p@[j],
        decreases p.len() - k,
    {
        if v[at + k] != p[k] {
            return false;
        }
        k += 1;
    }
    assert(rest.take(p.len() as int) =~= p@);
    true
}

/// Whether `v` begins with the text `word`.
pub fn starts_with(v: &Vec<char>, word: &str) -> (r: bool)
    ensures
        r == has_prefix(v@, word@),
{
    let p = chars_of(word);
    assert(v@.skip(0) == v@);
    starts_with_at(v, 0, &p)
}

/// What is left of `v` without the copies of `word` that it begins with and
/// without the copies of `close` that it then ends with.
pub fn strip_wrapping(v: &Vec<char>, word: &str, close: char) -> (r: Vec<char>)
    ensures
        r@ == strip_trailing(strip_prefixes(v@, word@), close),
{
    let p = chars_of(word);
    let n: usize = v.len();
    let mut i: usize = 0;
    assert(v@.skip(0) == v@);
    if p.len() > 0 {
        while starts_with_at(v, i, &p)
            invariant
                n == v.len(),
                i <= n,
                p.len() > 0,
                strip_prefixes(v@.skip(i as int), p@) == strip_prefixes(v@, p@),
            decreases n - i,
        {
            assert(v@.skip(i as int).skip(p.len() as int) == v@.skip(i + p.len()));
            i += p.len();
        }
    }
    let ghost body = v@.skip(i as int);
    let mut j: usize = n;
    while j > i && v[j - 1] == close
        invariant
            n == v.len(),
            i <= j <= n,
            strip_trailing(v@.subrange(i as int, j as int), close) == strip_trailing(body, close),
        decreases j,
    {
        assert(v@.subrange(i as int, j as int).drop_last() == v@.subrange(i as int, j - 1));
        j -= 1;
    }
    slice_of(v, i, j)
}

/// `v` without the separators at either end.
pub fn trim(v: &Vec<char>) -> (r: Vec<char>)
    ensures
        r@ == trimmed(v@),
{
    let n: usize = v.len();
    let mut i: usize = 0;
    assert(v@.skip(0) == v@);
    while i < n && is_whitespace(v[i])
        invariant
            n == v.len(),
            i <= n,
            trim_start(v@.skip(i as int)) == trim_start(v@),
        decreases n - i,
    {
        assert(v@.skip(i as int).drop_first() == v@.skip(i + 1));
        i += 1;
    }
    let ghost body = v@.skip(i as int);
    assert(body == trim_start(v@));
    let mut j: usize = n;
    while j > i && is_whitespace(v[j - 1])
        invariant
            n == v.len(),
            i <= j <= n,
            trim_end(v@.subrange(i as int, j as int)) == trim_end(body),
        decreases j,
    {
        assert(v@.subrange(i as int, j as int).drop_last() == v@.subrange(i as int, j - 1));
        j -= 1;
    }
    slice_of(v, i, j)
}

/// The fields of `v` between one `sep` and the next.
pub fn split(v: &Vec<char>, sep: char) -> (parts: Vec<Vec<char>>)
    ensures
        rows(parts@) == split_on(v@, sep),
{
    let n: usize = v.len();
    let mut parts: Vec<Vec<char>> = Vec::new();
    let mut start: usize = 0;
    let mut i: usize = 0;
    assert(v@.skip(0) == v@);
    while i < n
        invariant
            n == v.len(),
            start <= i <= n,
            (i - start) + field_len(v@.skip(i as int), sep) == field_len(
                v@.skip(start as int),
                sep,
            ),
            rows(parts@) + split_on(v@.skip(start as int), sep) == split_on(v@, sep),
        decreases n - i,
    {
        let ghost rest = v@.skip(start as int);
        if v[i] == sep {
            let part = slice_of(v, start, i);
            parts.push(part);
            proof {
                assert(rest.take(i - start) == v@.subrange(start as int, i as int));
                assert(rest.skip(i - start + 1) == v@.skip(i + 1));
            }
            start = i + 1;
        } else {
            assert(v@.skip(i as int).drop_first() == v@.skip(i + 1));
        }
        i += 1;
    }
    parts.push(slice_of(v, start, n));
    parts
}

/// Reads an unsigned number that is at most `max`.
pub fn read_unsigned(v: &Vec<char>, max: u64) -> (r: Result<u64, NumberError>)
    ensures
        r matches Ok(n) ==> n <= max,
        match r {
            Ok(n) => parse_unsigned(v@, max as nat) == Ok::<nat, NumberError>(n as nat),
            Err(e) => parse_unsigned(v@, max as nat) == Err::<nat, NumberError>(e),
        },
{
    if v.len() == 0 {
        return Err(NumberError::Empty);
    }
    let from: usize = if v[0] == '+' {
        1
    } else {
        0
    };
    assert(v@.skip(0) == v@);
    if from == v.len() {
        return Err(NumberError::InvalidDigit);
    }
    read_digits(v, from, max)
}

/// Reads the digits `v[from..]` as a number that is at most `max`.
fn read_digits(v: &Vec<char>, from: usize, max: u64) -> (r: Result<u64, NumberError>)
    requires
        from <= v.len(),
    ensures
        r matches Ok(n) ==> n <= max,
        match r {
            Ok(n) => scan_digits(v@.skip(from as int), 0, max as nat) == Ok::<nat, NumberError>(
                n as nat,
            ),
            Err(e) => scan_digits(v@.skip(from as int), 0, max as nat) == Err::<nat, NumberError>(
                e,
            ),
        },
{
    let n: usize = v.len();
    let mut i: usize = from;
    let mut acc: u64 = 0;
    while i < n
        invariant
            n == v.len(),
            from <= i <= n,
            acc <= max,
            scan_digits(v@.skip(i as int), acc as nat, max as nat) == scan_digits(
                v@.skip(from as int),
                0,
                max as nat,
            ),
        decreases n - i,
    {
        let c: char = v[i];
        assert(v@.skip(i as int).drop_first() == v@.skip(i + 1));
        let u: u32 = c as u32;
        if u < 0x30 || u > 0x39 {
            return Err(NumberError::InvalidDigit);
        }
        let d: u128 = (u - 0x30) as u128;
        let next: u128 = acc as u128 * 10 + d;
        if next > max as u128 {
            return Err(NumberError::TooLarge);
        }
        acc = next as u64;
        i += 1;
    }
    Ok(acc)
}

/// Reads a signed number of 64 bits.
pub fn read_signed(v: &Vec<char>) -> (r: Result<i64, NumberError>)
    ensures
        match r {
            Ok(n) => parse_signed(v@, 0x8000_0000_0000_0000, 0x7fff_ffff_ffff_ffff) == Ok::<
                int,
                NumberError,
            >(n as int),
            Err(e) => parse_signed(v@, 0x8000_0000_0000_0000, 0x7fff_ffff_ffff_ffff) == Err::<
                int,
                NumberError,
            >(e),
        },
{
    if v.len() > 0 && v[0] == '-' {
        if v.len() == 1 {
            return Err(NumberError::InvalidDigit);
        }
        match read_digits(v, 1, 0x8000_0000_0000_0000) {
            Ok(n) => {
                if n == 0x8000_0000_0000_0000 {
                    Ok(i64::MIN)
                } else {
                    Ok(-(n as i64))
                }
            },
            Err(NumberError::TooLarge) => Err(NumberError::TooSmall),
            Err(e) => Err(e),
        }
    } else {
        match read_unsigned(v, 0x7fff_ffff_ffff_ffff) {
            Ok(n) => Ok(n as i64),
            Err(e) => Err(e),
        }
    }
}

/// Writes `n` in decimal digits at the end of `out`.
pub fn write_unsigned(out: &mut Vec<char>, n: u64)
    ensures
        final(out)@ == old(out)@ + digits_of(n as nat),
    decreases n,
{
    if n >= 10 {
        write_unsigned(out, n / 10);
    }
    let d: u8 = (n % 10) as u8;
    out.push((0x30u8 + d) as char);
}

/// Writes `n` at the end of `out`, with a `-` before its digits if it is negative.
pub fn write_signed(out: &mut Vec<char>, n: i64)
    ensures
        final(out)@ == old(out)@ + numeral(n as int),
{
    if n < 0 {
        out.push('-');
        let magnitude: u64 = if n == i64::MIN {
            0x8000_0000_0000_0000
        } else {
            (-n) as u64
        };
        write_unsigned(out, magnitude);
    } else {
        write_unsigned(out, n as u64);
    }
}

/// Writes the text `word` at the end of `out`.
pub fn write_word(out: &mut Vec<char>, word: &str)
    ensures
        final(out)@ == old(out)@ + word@,
{
    let w = chars_of(word);
    let mut k: usize = 0;
    while k < w.len()
        invariant
            k <= w.len(),
            out@ == old(out)@ + w@.take(k as int),
        decreases w.len() - k,
    {
        out.push(w[k]);
        k += 1;
    }
}

} // verus!
