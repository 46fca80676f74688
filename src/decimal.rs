//! Decimal text of integers: reading it as `str::parse::<i64>` does and writing
//! it as `i64::to_string` does.

use vstd::prelude::*;

verus! {

/// The ASCII code of '0'.
pub const ZERO_BYTE: u8 = 48;

/// The ASCII code of '-'.
pub const MINUS_BYTE: u8 = 45;

/// The ASCII code of '+'.
pub const PLUS_BYTE: u8 = 43;

pub open spec fn is_digit_byte(b: u8) -> bool {
    ZERO_BYTE <= b <= ZERO_BYTE + 9
}

pub open spec fn all_digit_bytes(s: Seq<u8>) -> bool {
    forall|i: int| 0 <= i < s.len() ==> is_digit_byte(#[trigger] s[i])
}

/// The value of a run of decimal digits, most significant first.
pub open spec fn digits_value(s: Seq<u8>) -> int
    decreases s.len(),
{
    if s.len() == 0 {
        0
    } else {
        10 * digits_value(s.drop_last()) + (s.last() - ZERO_BYTE)
    }
}

/// The integer that `s` spells: an optional '+' or '-', then one or more ASCII digits.
pub open spec fn decimal_value(s: Seq<u8>) -> Option<int> {
    if s.len() >= 2 && s[0] == MINUS_BYTE && all_digit_bytes(s.skip(1)) {
        Some(-digits_value(s.skip(1)))
    } else if s.len() >= 2 && s[0] == PLUS_BYTE && all_digit_bytes(s.skip(1)) {
        Some(digits_value(s.skip(1)))
    } else if s.len() >= 1 && all_digit_bytes(s) {
        Some(digits_value(s))
    } else {
        None
    }
}

/// What `str::parse::<i64>` gives for `s`: the value it spells, if that fits in an `i64`.
pub open spec fn parsed_i64(s: Seq<u8>) -> Option<i64> {
    match decimal_value(s) {
        Some(v) => if i64::MIN <= v <= i64::MAX {
            Some(v as i64)
        } else {
            None
        },
        None => None,
    }
}

pub open spec fn digit_char(d: nat) -> char {
    seq!['0', '1', '2', '3', '4', '5', '6', '7', '8', '9'][d as int]
}

/// The digits of `n` in base ten, most significant first, with no leading zero.
pub open spec fn decimal_digits(n: nat) -> Seq<char>
    decreases n,
{
    if n < 10 {
        seq![digit_char(n)]
    } else {
        decimal_digits(n / 10).push(digit_char(n % 10))
    }
}

/// The decimal text of `n`, with a leading '-' when it is negative.
pub open spec fn decimal_text(n: int) -> Seq<char> {
    if n < 0 {
        seq!['-'] + decimal_digits((-n) as nat)
    } else {
        decimal_digits(n as nat)
    }
}

/// Whether every character of `s` is ASCII.
pub open spec fn is_ascii_text(s: Seq<char>) -> bool {
    forall|i: int| 0 <= i < s.len() ==> (#[trigger] s[i] as int) < 128
}

/// The bytes of a text whose characters are all ASCII.
pub open spec fn ascii_bytes(s: Seq<char>) -> Seq<u8> {
    s.map_values(|c: char| c as u8)
}

proof fn lemma_digits_value_nonneg(s: Seq<u8>)
    requires
        all_digit_bytes(s),
    ensures
        digits_value(s) >= 0,
    decreases s.len(),
{
    if s.len() > 0 {
        lemma_digits_value_nonneg(s.drop_last());
    }
}

/// Appending digits never makes the value smaller.
proof fn lemma_digits_value_prefix(s: Seq<u8>, k: int)
    requires
        all_digit_bytes(s),
        0 <= k <= s.len(),
    ensures
        digits_value(s.take(k)) <= digits_value(s),
    decreases s.len(),
{
    if k < s.len() {
        let t = s.drop_last();
        assert(t.take(k) =~= s.take(k));
        lemma_digits_value_prefix(t, k);
        lemma_digits_value_nonneg(t);
    } else {
        assert(s.take(k) =~= s);
    }
}

/// Splits `decimal_value` on whether the text opens with a sign.
proof fn lemma_decimal_value_cases(s: Seq<u8>)
    requires
        s.len() >= 1,
    ensures
        s[0] == MINUS_BYTE ==> decimal_value(s) == if s.len() >= 2 && all_digit_bytes(s.skip(1)) {
            Some(-digits_value(s.skip(1)))
        } else {
            None::<int>
        },
        s[0] == PLUS_BYTE ==> decimal_value(s) == if s.len() >= 2 && all_digit_bytes(s.skip(1)) {
            Some(digits_value(s.skip(1)))
        } else {
            None::<int>
        },
        s[0] != MINUS_BYTE && s[0] != PLUS_BYTE ==> decimal_value(s) == if all_digit_bytes(s) {
            Some(digits_value(s))
        } else {
            None::<int>
        },
{
    if s[0] == MINUS_BYTE || s[0] == PLUS_BYTE {
        assert(!is_digit_byte(s[0]));
        assert(!all_digit_bytes(s));
    }
}

/// Reads `s` as `str::parse::<i64>` reads the same text: `None` where that fails.
pub fn parse_i64(s: &[u8]) -> (r: Option<i64>)
    ensures
        r == parsed_i64(s@),
{
    let n = s.len();
    if n == 0 {
        return None;
    }
    let negative = s[0] == MINUS_BYTE;
    let start: usize = if s[0] == MINUS_BYTE || s[0] == PLUS_BYTE {
        1
    } else {
        0
    };
    if start == n {
        return None;
    }
    let ghost body = s@.skip(start as int);
    proof {
        lemma_decimal_value_cases(s@);
        if start == 0 {
            assert(body =~= s@);
        }
    }
    // The magnitude read so far; an i64 holds at most 2^63 of it.
    let mut acc: u64 = 0;
    let mut i: usize = start;
    while i < n
        invariant
            start <= i <= n,
            n == s@.len(),
            start < n,
            body == s@.skip(start as int),
            all_digit_bytes(s@.subrange(start as int, i as int)),
            acc == digits_value(s@.subrange(start as int, i as int)),
            acc <= 0x8000_0000_0000_0000u64,
            start == 0 ==> body == s@,
            start == 0 <==> (s@[0] != MINUS_BYTE && s@[0] != PLUS_BYTE),
            negative <==> s@[0] == MINUS_BYTE,
            start <= 1,
        decreases n - i,
    {
        let b = s[i];
        let ghost prev = s@.subrange(start as int, i as int);
        let ghost next = s@.subrange(start as int, i as int + 1);
        assert(next.drop_last() =~= prev);
        if b < ZERO_BYTE || b > ZERO_BYTE + 9 {
            proof {
                lemma_decimal_value_cases(s@);
                assert(body[i - start] == b);
                assert(!all_digit_bytes(body));
                if start == 0 {
                    assert(body =~= s@);
                }
            }
            return None;
        }
        let d = (b - ZERO_BYTE) as u64;
        if acc > (0x8000_0000_0000_0000u64 - d) / 10 {
            proof {
                lemma_decimal_value_cases(s@);
                assert(acc * 10 + d > 0x8000_0000_0000_0000u64) by (nonlinear_arith)
                    requires
                        acc > (0x8000_0000_0000_0000u64 - d) / 10,
                        d <= 9,
                ;
                if all_digit_bytes(body) {
                    assert(body.take(i + 1 - start) =~= next);
                    lemma_digits_value_prefix(body, i + 1 - start);
                }
                if start == 0 {
                    assert(body =~= s@);
                }
            }
            return None;
        }
        proof {
            assert(acc * 10 + d <= 0x8000_0000_0000_0000u64) by (nonlinear_arith)
                requires
                    acc <= (0x8000_0000_0000_0000u64 - d) / 10,
                    d <= 9,
            ;
        }
        acc = acc * 10 + d;
        i = i + 1;
    }
    proof {
        lemma_decimal_value_cases(s@);
        assert(s@.subrange(start as int, n as int) =~= body);
        if start == 0 {
            assert(body =~= s@);
        }
    }
    if negative {
        if acc == 0x8000_0000_0000_0000u64 {
            Some(i64::MIN)
        } else {
            Some(-(acc as i64))
        }
    } else if acc > i64::MAX as u64 {
        None
    } else {
        Some(acc as i64)
    }
}

proof fn lemma_digit_char_byte(d: nat)
    requires
        d < 10,
    ensures
        digit_char(d) as u8 == ZERO_BYTE + d,
{
    assert(('0' as u8) == 48u8 && ('1' as u8) == 49u8 && ('2' as u8) == 50u8 && ('3' as u8) == 51u8
        && ('4' as u8) == 52u8 && ('5' as u8) == 53u8 && ('6' as u8) == 54u8 && ('7' as u8) == 55u8
        && ('8' as u8) == 56u8 && ('9' as u8) == 57u8);
}

proof fn lemma_decimal_digits_bytes(m: nat)
    ensures
        ascii_bytes(decimal_digits(m)).len() >= 1,
        all_digit_bytes(ascii_bytes(decimal_digits(m))),
        digits_value(ascii_bytes(decimal_digits(m))) == m,
    decreases m,
{
    let b = ascii_bytes(decimal_digits(m));
    if m < 10 {
        lemma_digit_char_byte(m);
        assert(b =~= seq![digit_char(m) as u8]);
        assert(b.drop_last() =~= Seq::<u8>::empty());
        assert(is_digit_byte(b[0]));
        assert(digits_value(b) == 10 * digits_value(b.drop_last()) + (b.last() - ZERO_BYTE));
    } else {
        let head = ascii_bytes(decimal_digits(m / 10));
        lemma_decimal_digits_bytes(m / 10);
        lemma_digit_char_byte(m % 10);
        assert(b =~= head.push(digit_char(m % 10) as u8));
        assert(b.drop_last() =~= head);
        assert(b.last() == ZERO_BYTE + m % 10);
        assert(digits_value(b) == 10 * digits_value(head) + (b.last() - ZERO_BYTE));
        assert(m == 10 * (m / 10) + m % 10);
        assert forall|i: int| 0 <= i < b.len() implies is_digit_byte(#[trigger] b[i]) by {
            if i < head.len() {
                assert(b[i] == head[i]);
            }
        }
    }
}

proof fn lemma_decimal_digits_ascii(m: nat)
    ensures
        is_ascii_text(decimal_digits(m)),
    decreases m,
{
    let t = decimal_digits(m);
    assert(('0' as int) == 48 && ('1' as int) == 49 && ('2' as int) == 50 && ('3' as int) == 51
        && ('4' as int) == 52 && ('5' as int) == 53 && ('6' as int) == 54 && ('7' as int) == 55
        && ('8' as int) == 56 && ('9' as int) == 57);
    if m >= 10 {
        lemma_decimal_digits_ascii(m / 10);
        let head = decimal_digits(m / 10);
        assert forall|i: int| 0 <= i < t.len() implies (#[trigger] t[i] as int) < 128 by {
            if i < head.len() {
                assert(t[i] == head[i]);
            }
        }
    }
}

/// Decimal text is ASCII.
pub proof fn lemma_decimal_text_ascii(n: int)
    ensures
        is_ascii_text(decimal_text(n)),
{
    let t = decimal_text(n);
    if n < 0 {
        let d = decimal_digits((-n) as nat);
        lemma_decimal_digits_ascii((-n) as nat);
        assert(('-' as int) == 45);
        assert forall|i: int| 0 <= i < t.len() implies (#[trigger] t[i] as int) < 128 by {
            if i > 0 {
                assert(t[i] == d[i - 1]);
            }
        }
    } else {
        lemma_decimal_digits_ascii(n as nat);
    }
}

/// Reading back the decimal text of any `i64` gives that number: what
/// `format_i64` writes, `parse_i64` reads as the same value.
pub proof fn lemma_parse_format_round_trip(n: i64)
    ensures
        parsed_i64(ascii_bytes(decimal_text(n as int))) == Some(n),
{
    let t = ascii_bytes(decimal_text(n as int));
    if n < 0 {
        let m = (-n) as nat;
        lemma_decimal_digits_bytes(m);
        assert(('-' as u8) == MINUS_BYTE);
        assert(t.skip(1) =~= ascii_bytes(decimal_digits(m)));
    } else {
        lemma_decimal_digits_bytes(n as nat);
        lemma_decimal_value_cases(t);
        assert(is_digit_byte(t[0]));
    }
}

/// The one-character text of the digit `d`.
fn digit_str(d: u64) -> (r: &'static str)
    requires
        d < 10,
    ensures
        r@ == seq![digit_char(d as nat)],
{
    if d == 0 {
        proof { reveal_strlit("0"); }
        "0"
    } else if d == 1 {
        proof { reveal_strlit("1"); }
        "1"
    } else if d == 2 {
        proof { reveal_strlit("2"); }
        "2"
    } else if d == 3 {
        proof { reveal_strlit("3"); }
        "3"
    } else if d == 4 {
        proof { reveal_strlit("4"); }
        "4"
    } else if d == 5 {
        proof { reveal_strlit("5"); }
        "5"
    } else if d == 6 {
        proof { reveal_strlit("6"); }
        "6"
    } else if d == 7 {
        proof { reveal_strlit("7"); }
        "7"
    } else if d == 8 {
        proof { reveal_strlit("8"); }
        "8"
    } else {
        proof { reveal_strlit("9"); }
        "9"
    }
}

/// Appends the digits of `m` to `out`.
fn push_digits(out: &mut String, m: u64)
    ensures
        final(out)@ == old(out)@ + decimal_digits(m as nat),
    decreases m,
{
    if m >= 10 {
        push_digits(out, m / 10);
    }
    out.append(digit_str(m % 10));
    proof {
        if m < 10 {
            assert(m % 10 == m);
        }
    }
}

/// The decimal text of `n`, as `i64::to_string` writes it.
pub fn format_i64(n: i64) -> (r: String)
    ensures
        r@ == decimal_text(n as int),
{
    let mut out = String::new();
    if n < 0 {
        out.append("-");
        proof { reveal_strlit("-"); }
        let magnitude: u64 = if n == i64::MIN {
            0x8000_0000_0000_0000u64
        } else {
            (-n) as u64
        };
        push_digits(&mut out, magnitude);
    } else {
        push_digits(&mut out, n as u64);
    }
    out
}

} // verus!
