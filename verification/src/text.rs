//! Text primitives the service builds on: decimal rendering and parsing of
//! 64-bit integers, lowercase hexadecimal encoding of bytes, and a few
//! character-level string operations.

use vstd::prelude::*;

verus! {

// ---------------------------------------------------------------------------
// Character classes
// ---------------------------------------------------------------------------

/// `c` is one of the ASCII digits `0`..=`9`.
pub open spec fn is_digit(c: char) -> bool {
    '0' <= c && c <= '9'
}

/// The numeric value of an ASCII digit.
pub open spec fn digit_value(c: char) -> int {
    (c as int) - ('0' as int)
}

/// The ASCII digit for a value in `0..10`.
pub open spec fn digit_char(v: int) -> char {
    ((v + ('0' as int)) as u32) as char
}

/// The lowercase hexadecimal digit for a value in `0..16`.
pub open spec fn hex_digit(v: int) -> char {
    if v < 10 {
        ((v + ('0' as int)) as u32) as char
    } else {
        ((v - 10 + ('a' as int)) as u32) as char
    }
}

/// `c` is one of `0`..=`9` or `a`..=`f`.
pub open spec fn is_lower_hex_digit(c: char) -> bool {
    ('0' <= c && c <= '9') || ('a' <= c && c <= 'f')
}

// ---------------------------------------------------------------------------
// Lowercase hexadecimal
// ---------------------------------------------------------------------------

/// Lowercase hexadecimal text of a byte string: each byte becomes two
/// characters, high nibble first.
pub open spec fn hex_text(bytes: Seq<u8>) -> Seq<char> {
    Seq::new(
        2 * bytes.len(),
        |i: int|
            if i % 2 == 0 {
                hex_digit(bytes[i / 2] as int / 16)
            } else {
                hex_digit(bytes[i / 2] as int % 16)
            },
    )
}

/// Every character of `hex_text` is a lowercase hexadecimal digit, and
/// decoding each pair of characters gives back the byte.
pub proof fn lemma_hex_text_shape(bytes: Seq<u8>)
    ensures
        hex_text(bytes).len() == 2 * bytes.len(),
        forall|i: int| 0 <= i < hex_text(bytes).len() ==> is_lower_hex_digit(#[trigger] hex_text(bytes)[i]),
{
    assert forall|i: int| 0 <= i < hex_text(bytes).len() implies is_lower_hex_digit(#[trigger] hex_text(bytes)[i]) by {
        let b = bytes[i / 2] as int;
        assert(0 <= b / 16 < 16);
        assert(0 <= b % 16 < 16);
    }
}

const HEX_DIGITS: [char; 16] = ['0', '1', '2', '3', '4', '5', '6', '7', '8', '9', 'a', 'b', 'c', 'd', 'e', 'f'];

/// Renders `bytes` as lowercase hexadecimal text, two characters per byte.
pub fn hex_encode(bytes: &[u8]) -> (r: String)
    ensures
        r@ == hex_text(bytes@),
{
    let mut out = String::new();
    let n = bytes.len();
    let mut i: usize = 0;
    while i < n
        invariant
            n == bytes@.len(),
            i <= n,
            out@ == hex_text(bytes@.subrange(0, i as int)),
        decreases n - i,
    {
        let b = bytes[i];
        let hi = (b / 16) as usize;
        let lo = (b % 16) as usize;
        proof {
            assert(HEX_DIGITS@ =~= seq!['0', '1', '2', '3', '4', '5', '6', '7', '8', '9', 'a', 'b', 'c', 'd', 'e', 'f']);
        }
        let ch = HEX_DIGITS[hi];
        let cl = HEX_DIGITS[lo];
        assert(ch == hex_digit(hi as int));
        assert(cl == hex_digit(lo as int));
        push_char(&mut out, ch);
        push_char(&mut out, cl);
        proof {
            let prev = bytes@.subrange(0, i as int);
            let next = bytes@.subrange(0, i + 1);
            assert(out@ =~= hex_text(next)) by {
                assert forall|k: int| 0 <= k < 2 * next.len() implies out@[k] == hex_text(next)[k] by {
                    if k < 2 * prev.len() {
                        assert(next[k / 2] == prev[k / 2]);
                    }
                }
            }
        }
        i += 1;
    }
    assert(bytes@.subrange(0, n as int) =~= bytes@);
    out
}

// ---------------------------------------------------------------------------
// Decimal text of integers
// ---------------------------------------------------------------------------

/// Decimal digits of a natural number, most significant first, without
/// leading zeros (zero itself is `"0"`).
pub open spec fn decimal_digits(n: nat) -> Seq<char>
    decreases n,
{
    if n < 10 {
        seq![digit_char(n as int)]
    } else {
        decimal_digits(n / 10).push(digit_char(n as int % 10))
    }
}

/// Decimal text of an integer: `-` before the digits of a negative number.
pub open spec fn decimal_text(n: int) -> Seq<char> {
    if n < 0 {
        seq!['-'] + decimal_digits((-n) as nat)
    } else {
        decimal_digits(n as nat)
    }
}

/// `s` is a non-empty run of ASCII digits.
pub open spec fn all_digits(s: Seq<char>) -> bool {
    forall|i: int| 0 <= i < s.len() ==> is_digit(#[trigger] s[i])
}

/// The value of a run of ASCII digits read in base ten.
pub open spec fn digits_value(s: Seq<char>) -> int
    decreases s.len(),
{
    if s.len() == 0 {
        0
    } else {
        digits_value(s.drop_last()) * 10 + digit_value(s.last())
    }
}

pub open spec fn in_i64_range(v: int) -> bool {
    i64::MIN <= v <= i64::MAX
}

/// What `str::parse::<i64>` accepts and yields: an optional `+` or `-`, then
/// one or more ASCII digits, whose value must fit in an `i64`.
pub open spec fn parse_i64_text(s: Seq<char>) -> Option<i64> {
    if s.len() == 0 {
        None
    } else {
        let negative = s[0] == '-';
        let body = if s[0] == '+' || s[0] == '-' { s.drop_first() } else { s };
        let v = if negative { -digits_value(body) } else { digits_value(body) };
        if body.len() > 0 && all_digits(body) && in_i64_range(v) {
            Some(v as i64)
        } else {
            None
        }
    }
}

proof fn lemma_digit_char(v: int)
    requires
        0 <= v < 10,
    ensures
        digit_value(digit_char(v)) == v,
        is_digit(digit_char(v)),
{
    assert(((v + ('0' as int)) as u32) as char as int == v + 48);
}

proof fn lemma_decimal_digits_facts(n: nat)
    ensures
        decimal_digits(n).len() >= 1,
        all_digits(decimal_digits(n)),
        digits_value(decimal_digits(n)) == n,
    decreases n,
{
    if n < 10 {
        let s = decimal_digits(n);
        lemma_digit_char(n as int);
        assert(s.drop_last() =~= Seq::<char>::empty());
        assert(digits_value(Seq::<char>::empty()) == 0);
        assert(digits_value(s) == digits_value(s.drop_last()) * 10 + digit_value(s.last()));
        assert(digits_value(s) == n);
    } else {
        lemma_decimal_digits_facts(n / 10);
        lemma_digit_char(n as int % 10);
        let s = decimal_digits(n);
        assert(s.drop_last() =~= decimal_digits(n / 10));
        assert(s.last() == digit_char(n as int % 10));
        assert((n / 10) * 10 + n % 10 == n) by (nonlinear_arith);
        assert(digits_value(s) == digits_value(decimal_digits(n / 10)) * 10 + digit_value(s.last()));
        assert(digits_value(s) == n);
        assert(all_digits(s)) by {
            assert forall|i: int| 0 <= i < s.len() implies is_digit(#[trigger] s[i]) by {
                if i < s.len() - 1 {
                    assert(s[i] == decimal_digits(n / 10)[i]);
                }
            }
        }
    }
}

/// Rendering an `i64` in decimal and parsing the text back gives the same
/// number.
pub proof fn lemma_decimal_round_trip(n: i64)
    ensures
        parse_i64_text(decimal_text(n as int)) == Some(n),
{
    if n < 0 {
        let m = (-(n as int)) as nat;
        lemma_decimal_digits_facts(m);
        let s = decimal_text(n as int);
        assert(s.drop_first() =~= decimal_digits(m));
        assert(s[0] == '-');
    } else {
        let m = n as nat;
        lemma_decimal_digits_facts(m);
        let s = decimal_text(n as int);
        assert(is_digit(s[0]));
    }
}

/// Every character of the decimal text of an integer is an ASCII digit or
/// the leading minus sign.
pub proof fn lemma_decimal_text_chars(n: int)
    ensures
        forall|i: int| 0 <= i < decimal_text(n).len() ==> {
            let c = #[trigger] decimal_text(n)[i];
            is_digit(c) || c == '-'
        },
{
    if n < 0 {
        let m = (-n) as nat;
        lemma_decimal_digits_facts(m);
        let s = decimal_text(n);
        assert forall|i: int| 0 <= i < s.len() implies is_digit(#[trigger] s[i]) || s[i] == '-' by {
            if i > 0 {
                assert(s[i] == decimal_digits(m)[i - 1]);
            }
        }
    } else {
        lemma_decimal_digits_facts(n as nat);
    }
}

/// Appends one character to a string.
#[verifier::external_body]
pub(crate) fn push_char(s: &mut String, c: char)
    ensures
        final(s)@ == old(s)@.push(c),
{
    s.push(c)
}

/// Renders an `i64` as decimal text, as `i64::to_string` does.
pub fn i64_to_decimal(n: i64) -> (r: String)
    ensures
        r@ == decimal_text(n as int),
{
    let negative = n < 0;
    let mut q: u64 = if negative { (-(n as i128)) as u64 } else { n as u64 };
    let ghost m: nat = if negative { (-(n as int)) as nat } else { n as nat };
    let mut tail: Vec<char> = Vec::new();
    while q >= 10
        invariant
            decimal_digits(m) == decimal_digits(q as nat) + tail@,
        decreases q,
    {
        let d = (q % 10) as u32;
        let c = char_of_digit(d);
        proof {
            assert(decimal_digits(q as nat) == decimal_digits((q / 10) as nat).push(digit_char(q as int % 10)));
        }
        let ghost old_tail = tail@;
        tail.insert(0, c);
        proof {
            assert(tail@ =~= seq![c] + old_tail);
            assert(decimal_digits(q as nat) + old_tail =~= decimal_digits((q / 10) as nat) + tail@);
        }
        q = q / 10;
    }
    let first = char_of_digit(q as u32);
    let mut out = String::new();
    if negative {
        push_char(&mut out, '-');
    }
    push_char(&mut out, first);
    let len = tail.len();
    let ghost prefix = out@;
    let mut i: usize = 0;
    while i < len
        invariant
            len == tail@.len(),
            i <= len,
            out@ == prefix + tail@.subrange(0, i as int),
        decreases len - i,
    {
        push_char(&mut out, tail[i]);
        proof {
            assert(tail@.subrange(0, i + 1) =~= tail@.subrange(0, i as int).push(tail@[i as int]));
        }
        i += 1;
    }
    proof {
        assert(tail@.subrange(0, len as int) =~= tail@);
        assert(decimal_digits(q as nat) =~= seq![first]);
        if negative {
            assert(out@ =~= seq!['-'] + decimal_digits(m));
        } else {
            assert(out@ =~= decimal_digits(m));
        }
    }
    out
}

/// The ASCII digit for `d` in `0..10`.
fn char_of_digit(d: u32) -> (c: char)
    requires
        d < 10,
    ensures
        c == digit_char(d as int),
{
    let digits: [char; 10] = ['0', '1', '2', '3', '4', '5', '6', '7', '8', '9'];
    proof {
        assert(digits@ =~= seq!['0', '1', '2', '3', '4', '5', '6', '7', '8', '9']);
    }
    digits[d as usize]
}


proof fn lemma_digits_value_prefix(s: Seq<char>, j: int)
    requires
        all_digits(s),
        0 <= j <= s.len(),
    ensures
        0 <= digits_value(s.subrange(0, j)) <= digits_value(s),
    decreases s.len() - j,
{
    if j == s.len() {
        assert(s.subrange(0, j) =~= s);
        lemma_digits_value_nonneg(s);
    } else {
        lemma_digits_value_prefix(s, j + 1);
        let p = s.subrange(0, j + 1);
        assert(p.drop_last() =~= s.subrange(0, j));
        assert(is_digit(s[j]));
        lemma_digits_value_nonneg(s.subrange(0, j));
    }
}

proof fn lemma_digits_value_nonneg(s: Seq<char>)
    requires
        all_digits(s),
    ensures
        digits_value(s) >= 0,
    decreases s.len(),
{
    if s.len() > 0 {
        assert(all_digits(s.drop_last()));
        lemma_digits_value_nonneg(s.drop_last());
        assert(is_digit(s[s.len() - 1]));
    }
}

/// Parses decimal text as `str::parse::<i64>` does: an optional sign, then
/// at least one ASCII digit, with the value in range.
pub fn parse_i64(s: &str) -> (r: Option<i64>)
    ensures
        r == parse_i64_text(s@),
{
    let n = s.unicode_len();
    if n == 0 {
        return None;
    }
    let c0 = s.get_char(0);
    let negative = c0 == '-';
    let start: usize = if c0 == '+' || c0 == '-' { 1 } else { 0 };
    let ghost body = if s@[0] == '+' || s@[0] == '-' { s@.drop_first() } else { s@ };
    assert(body =~= s@.subrange(start as int, n as int));
    if start == n {
        return None;
    }
    let limit: u128 = if negative { 9223372036854775808 } else { 9223372036854775807 };
    let mut acc: u128 = 0;
    let mut i: usize = start;
    assert(s@.subrange(start as int, start as int) =~= Seq::<char>::empty());
    while i < n
        invariant
            n == s@.len(),
            start <= i <= n,
            body =~= s@.subrange(start as int, n as int),
            body == (if s@[0] == '+' || s@[0] == '-' { s@.drop_first() } else { s@ }),
            negative == (s@[0] == '-'),
            n > 0,
            all_digits(s@.subrange(start as int, i as int)),
            acc == digits_value(s@.subrange(start as int, i as int)),
            acc <= limit,
            limit == (if negative { 9223372036854775808u128 } else { 9223372036854775807u128 }),
        decreases n - i,
    {
        let c = s.get_char(i);
        if !(c >= '0' && c <= '9') {
            assert(!is_digit(body[i - start]));
            return None;
        }
        let d = (c as u32 - '0' as u32) as u128;
        let ghost prev = s@.subrange(start as int, i as int);
        let ghost next = s@.subrange(start as int, i + 1);
        assert(next.drop_last() =~= prev);
        assert(next.last() == c);
        acc = acc * 10 + d;
        assert(acc == digits_value(next));
        assert(all_digits(next)) by {
            assert forall|k: int| 0 <= k < next.len() implies is_digit(#[trigger] next[k]) by {
                if k < prev.len() {
                    assert(next[k] == prev[k]);
                }
            }
        }
        if acc > limit {
            proof {
                if all_digits(body) {
                    assert(next =~= body.subrange(0, (i + 1 - start) as int));
                    lemma_digits_value_prefix(body, (i + 1 - start) as int);
                }
            }
            return None;
        }
        i += 1;
    }
    assert(s@.subrange(start as int, n as int) =~= body);
    if negative {
        Some((-(acc as i128)) as i64)
    } else {
        Some(acc as i64)
    }
}

} // verus!
