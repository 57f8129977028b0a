//! Decimal Unix timestamps in header text.

use vstd::prelude::*;

verus! {

/// The value of `digits` read in base ten.
pub open spec fn decimal_value(digits: Seq<char>) -> int
    decreases digits.len(),
{
    if digits.len() == 0 {
        0
    } else {
        10 * decimal_value(digits.drop_last()) + (digits.last() as int - '0' as int)
    }
}

/// Whether every character is an ASCII digit.
pub open spec fn all_digits(text: Seq<char>) -> bool {
    forall|i: int| 0 <= i < text.len() ==> '0' <= #[trigger] text[i] <= '9'
}

/// Whether `text` starts with `+` or `-`.
pub open spec fn is_signed(text: Seq<char>) -> bool {
    text.len() > 0 && (text[0] == '+' || text[0] == '-')
}

/// `text` without its sign.
pub open spec fn magnitude(text: Seq<char>) -> Seq<char> {
    if is_signed(text) {
        text.skip(1)
    } else {
        text
    }
}

/// The number that `text` denotes, without a bound on its size.
pub open spec fn denoted(text: Seq<char>) -> int {
    if text.len() > 0 && text[0] == '-' {
        -decimal_value(magnitude(text))
    } else {
        decimal_value(magnitude(text))
    }
}

/// The timestamp that `text` denotes: an optional sign and at least one
/// digit, with a value that fits. `None` for anything else.
pub open spec fn parsed(text: Seq<char>) -> Option<i64> {
    if magnitude(text).len() > 0 && all_digits(magnitude(text)) && i64::MIN <= denoted(text)
        <= i64::MAX {
        Some(denoted(text) as i64)
    } else {
        None
    }
}

/// Reading further digits never makes the value smaller.
proof fn lemma_decimal_value_grows(digits: Seq<char>, n: int)
    requires
        all_digits(digits),
        0 <= n <= digits.len(),
    ensures
        0 <= decimal_value(digits.take(n)) <= decimal_value(digits),
    decreases digits.len(),
{
    if digits.len() == 0 {
        assert(digits.take(n) =~= digits);
    } else if n == digits.len() {
        assert(digits.take(n) =~= digits);
        lemma_decimal_value_grows(digits.drop_last(), 0);
        assert(digits.drop_last().take(0) =~= Seq::<char>::empty());
        assert(all_digits(digits.drop_last()));
        lemma_decimal_value_grows(digits.drop_last(), digits.len() - 1);
        assert('0' <= digits[digits.len() - 1] <= '9');
    } else {
        assert(all_digits(digits.drop_last()));
        lemma_decimal_value_grows(digits.drop_last(), n);
        assert(digits.drop_last().take(n) =~= digits.take(n));
        assert('0' <= digits[digits.len() - 1] <= '9');
    }
}

/// Read a decimal timestamp.
pub fn parse(text: &str) -> (ts: Option<i64>)
    ensures
        ts == parsed(text@),
{
    if !text.is_ascii() {
        proof {
            // Some character lies outside ASCII: it is neither a sign nor a
            // digit.
            let i = choose|i: int|
                0 <= i < text@.len() && !('\0' <= #[trigger] text@[i] <= '\u{7f}');
            let digits = magnitude(text@);
            if is_signed(text@) {
                assert(i > 0);
                assert(digits[i - 1] == text@[i]);
            } else {
                assert(digits[i] == text@[i]);
            }
        }
        return None;
    }
    let bytes = text.as_bytes();
    proof {
        vstd::utf8::is_ascii_chars_encode_utf8(text@);
    }
    let negative: bool = bytes.len() > 0 && bytes[0] == '-' as u8;
    let start: usize = if bytes.len() > 0 && (bytes[0] == '-' as u8 || bytes[0] == '+' as u8) {
        1
    } else {
        0
    };
    let ghost digits = magnitude(text@);
    if start == bytes.len() {
        return None;
    }
    let mut value: i128 = 0;
    let mut i: usize = start;
    assert(digits.take(0) =~= Seq::<char>::empty());
    while i < bytes.len()
        invariant
            start <= i <= bytes.len(),
            bytes.len() == text@.len(),
            digits == magnitude(text@),
            digits.len() == bytes.len() - start,
            forall|j: int| start <= j < bytes.len() ==> digits[j - start] as u8 == bytes@[j],
            forall|j: int| 0 <= j < digits.len() ==> 0 <= (#[trigger] digits[j] as int) < 128,
            all_digits(digits.take(i - start)),
            value == decimal_value(digits.take(i - start)),
            0 <= value <= 0x8000_0000_0000_0000,
        decreases bytes.len() - i,
    {
        let b: u8 = bytes[i];
        let ghost k = i - start;
        assert(digits[k] as u8 == b);
        assert(digits[k] as int == b as int);
        if b < ('0' as u8) || b > '9' as u8 {
            assert(!('0' <= digits[k] <= '9'));
            return None;
        }
        let ghost before = digits.take(k);
        let ghost next = digits.take(k + 1);
        assert(next.drop_last() =~= before);
        assert(next.last() == digits[k]);
        assert(all_digits(next)) by {
            assert forall|j: int| 0 <= j < next.len() implies '0' <= #[trigger] next[j] <= '9' by {
                if j < k {
                    assert(next[j] == before[j]);
                }
            }
        }
        value = value * 10 + (b - '0' as u8) as i128;
        i += 1;
        if value > 0x8000_0000_0000_0000 {
            proof {
                if all_digits(digits) {
                    lemma_decimal_value_grows(digits, k + 1);
                }
            }
            return None;
        }
    }
    assert(digits.take(digits.len() as int) =~= digits);
    if negative {
        Some((-value) as i64)
    } else if value < 0x8000_0000_0000_0000 {
        Some(value as i64)
    } else {
        None
    }
}

/// Digits are read in base ten, the last one counting once.
pub proof fn law_decimal_reading(digits: Seq<char>, digit: char)
    ensures
        decimal_value(Seq::empty()) == 0,
        decimal_value(digits.push(digit)) == 10 * decimal_value(digits) + (digit as int - 48),
{
    assert(digits.push(digit).drop_last() =~= digits);
}

/// Any run of digits is a timestamp, bare, after `+` and after `-`, as long as
/// its value fits.
pub proof fn law_digits_are_timestamps(digits: Seq<char>)
    requires
        digits.len() > 0,
        forall|i: int| 0 <= i < digits.len() ==> '0' <= #[trigger] digits[i] <= '9',
    ensures
        parsed(digits) == (if decimal_value(digits) <= i64::MAX {
            Some(decimal_value(digits) as i64)
        } else {
            None
        }),
        parsed(seq!['+'] + digits) == parsed(digits),
        parsed(seq!['-'] + digits) == (if decimal_value(digits) <= i64::MAX + 1 {
            Some((-decimal_value(digits)) as i64)
        } else {
            None
        }),
{
    assert((seq!['+'] + digits).skip(1) =~= digits);
    assert((seq!['-'] + digits).skip(1) =~= digits);
    assert('0' <= digits[0] <= '9');
    lemma_decimal_value_grows(digits, 0);
}

/// Nothing else is a timestamp: after an optional sign there is at least one
/// digit and nothing but digits.
pub proof fn law_timestamps_are_digits(text: Seq<char>)
    requires
        parsed(text) is Some,
    ensures
        text.len() > 0,
        forall|i: int| 1 <= i < text.len() ==> '0' <= #[trigger] text[i] <= '9',
        '0' <= text[0] <= '9' || (text.len() > 1 && (text[0] == '+' || text[0] == '-')),
{
    let digits = magnitude(text);
    if is_signed(text) {
        assert forall|i: int| 1 <= i < text.len() implies '0' <= #[trigger] text[i] <= '9' by {
            assert(digits[i - 1] == text[i]);
        }
    } else {
        assert('0' <= digits[0] <= '9');
    }
}

} // verus!
