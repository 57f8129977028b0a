//! Hexadecimal text, as the `hex` crate reads and writes it.

use vstd::prelude::*;

verus! {

/// The lower-case digit for `n`, which is below sixteen.
pub open spec fn hex_digit(n: int) -> char {
    if n < 10 {
        ('0' as int + n) as char
    } else {
        ('a' as int + n - 10) as char
    }
}

/// The value of a digit in either case, `None` for any other character.
pub open spec fn hex_value(c: char) -> Option<int> {
    if '0' <= c <= '9' {
        Some(c as int - '0' as int)
    } else if 'a' <= c <= 'f' {
        Some(c as int - 'a' as int + 10)
    } else if 'A' <= c <= 'F' {
        Some(c as int - 'A' as int + 10)
    } else {
        None
    }
}

/// `bytes` in lower-case hexadecimal, two digits a byte, high half first.
pub open spec fn hex_encoded(bytes: Seq<u8>) -> Seq<char> {
    Seq::new(
        2 * bytes.len(),
        |i: int|
            if i % 2 == 0 {
                hex_digit(bytes[i / 2] as int / 16)
            } else {
                hex_digit(bytes[i / 2] as int % 16)
            },
    )
}

/// Whether `text` is an even number of hexadecimal digits.
pub open spec fn is_hex(text: Seq<char>) -> bool {
    &&& text.len() % 2 == 0
    &&& forall|i: int| 0 <= i < text.len() ==> hex_value(#[trigger] text[i]) is Some
}

/// The byte that the `i`-th pair of digits of `text` stands for.
pub open spec fn hex_byte(text: Seq<char>, i: int) -> u8 {
    (16 * hex_value(text[2 * i])->0 + hex_value(text[2 * i + 1])->0) as u8
}

/// The bytes that `text` stands for, `None` where it is no hexadecimal text.
pub open spec fn hex_decoded(text: Seq<char>) -> Option<Seq<u8>> {
    if is_hex(text) {
        Some(Seq::new(text.len() / 2, |i: int| hex_byte(text, i)))
    } else {
        None
    }
}

/// `c` with an upper-case ASCII letter lowered.
pub open spec fn lower_digit(c: char) -> char {
    if 'A' <= c <= 'Z' {
        (c as int - 'A' as int + 'a' as int) as char
    } else {
        c
    }
}

/// Decoding gives back the bytes that were encoded.
pub proof fn lemma_decode_encoded(bytes: Seq<u8>)
    ensures
        hex_decoded(hex_encoded(bytes)) == Some(bytes),
{
    let text = hex_encoded(bytes);
    assert forall|i: int| 0 <= i < text.len() implies hex_value(#[trigger] text[i]) is Some by {
        let b = bytes[i / 2] as int;
        assert(0 <= b / 16 < 16 && 0 <= b % 16 < 16);
    }
    assert forall|i: int| 0 <= i < bytes.len() implies hex_byte(text, i) == bytes[i] by {
        let b = bytes[i] as int;
        assert(text[2 * i] == hex_digit(b / 16));
        assert((2 * i + 1) / 2 == i);
        assert(text[2 * i + 1] == hex_digit(b % 16));
        assert(16 * (b / 16) + b % 16 == b);
    }
    assert(Seq::new(text.len() / 2, |i: int| hex_byte(text, i)) =~= bytes);
}

/// Text that decodes to `bytes` is their encoding, up to the case of letters.
pub proof fn lemma_decoded_text(text: Seq<char>, bytes: Seq<u8>)
    requires
        hex_decoded(text) == Some(bytes),
    ensures
        text.map_values(|c: char| lower_digit(c)) == hex_encoded(bytes),
{
    let lowered = text.map_values(|c: char| lower_digit(c));
    assert forall|i: int| 0 <= i < text.len() implies #[trigger] lowered[i] == hex_encoded(
        bytes,
    )[i] by {
        let k = i / 2;
        assert(bytes[k] == hex_byte(text, k));
        assert(hex_value(text[2 * k]) is Some && hex_value(text[2 * k + 1]) is Some);
        let high = hex_value(text[2 * k])->0;
        let low = hex_value(text[2 * k + 1])->0;
        assert(0 <= high < 16 && 0 <= low < 16);
        assert(bytes[k] as int == 16 * high + low);
        assert((16 * high + low) / 16 == high);
        assert((16 * high + low) % 16 == low);
        assert(i == 2 * k || i == 2 * k + 1);
    }
    assert(lowered =~= hex_encoded(bytes));
}

/// `hex::FromHexError`, carried through unopened.
#[verifier::external_type_specification]
#[verifier::external_body]
pub struct ExFromHexError(hex::FromHexError);

/// `hex::encode`: every byte becomes two lower-case digits.
#[verifier::external_body]
pub(crate) fn encode(bytes: &[u8]) -> (text: String)
    ensures
        text@ == hex_encoded(bytes@),
{
    hex::encode(bytes)
}

/// `hex::decode`: digits of either case, in pairs, become bytes. Anything but
/// an even number of digits is an error. Which error it is stays unsaid.
#[verifier::external_body]
pub(crate) fn decode(text: &str) -> (bytes: Result<Vec<u8>, hex::FromHexError>)
    ensures
        match bytes {
            Ok(b) => hex_decoded(text@) == Some(b@),
            Err(_) => hex_decoded(text@) is None,
        },
{
    hex::decode(text)
}

/// Every byte is written as two lower-case digits, the first worth sixteen
/// times its value.
pub proof fn law_bytes_are_written_as_digit_pairs(bytes: Seq<u8>, i: int)
    requires
        0 <= i < bytes.len(),
    ensures
        hex_encoded(bytes).len() == 2 * bytes.len(),
        ({
            let high = hex_encoded(bytes)[2 * i];
            let low = hex_encoded(bytes)[2 * i + 1];
            &&& '0' <= high <= '9' || 'a' <= high <= 'f'
            &&& '0' <= low <= '9' || 'a' <= low <= 'f'
            &&& bytes[i] == 16 * (if high <= '9' {
                high as int - 48
            } else {
                high as int - 87
            }) + (if low <= '9' {
                low as int - 48
            } else {
                low as int - 87
            })
        }),
{
    let b = bytes[i] as int;
    assert((2 * i) / 2 == i && (2 * i) % 2 == 0);
    assert((2 * i + 1) / 2 == i && (2 * i + 1) % 2 == 1);
    assert(hex_encoded(bytes)[2 * i] == hex_digit(b / 16));
    assert(hex_encoded(bytes)[2 * i + 1] == hex_digit(b % 16));
    assert(0 <= b / 16 < 16 && 0 <= b % 16 < 16 && b == 16 * (b / 16) + b % 16);
}

/// Each pair of digits of a text that can be read is read as one byte.
pub proof fn law_digit_pairs_are_read_as_bytes(text: Seq<char>, i: int)
    requires
        0 <= i < text.len() / 2,
    ensures
        hex_decoded(text) is Some ==> ({
            let high = text[2 * i];
            let low = text[2 * i + 1];
            &&& hex_decoded(text)->0.len() == text.len() / 2
            &&& hex_decoded(text)->0[i] == 16 * (if high <= '9' {
                high as int - 48
            } else if high <= 'F' {
                high as int - 55
            } else {
                high as int - 87
            }) + (if low <= '9' {
                low as int - 48
            } else if low <= 'F' {
                low as int - 55
            } else {
                low as int - 87
            })
        }),
{
    if hex_decoded(text) is Some {
        assert(hex_value(text[2 * i]) is Some && hex_value(text[2 * i + 1]) is Some);
        assert(hex_decoded(text)->0[i] == hex_byte(text, i));
    }
}

/// A text can be read exactly when it is an even number of digits of either
/// case.
pub proof fn law_readable_texts(text: Seq<char>)
    ensures
        hex_decoded(text) is Some <==> text.len() % 2 == 0 && forall|i: int|
            0 <= i < text.len() ==> ('0' <= #[trigger] text[i] <= '9' || 'a' <= text[i] <= 'f'
                || 'A' <= text[i] <= 'F'),
{
    if hex_decoded(text) is Some {
        assert forall|i: int| 0 <= i < text.len() implies ('0' <= #[trigger] text[i] <= '9' || 'a'
            <= text[i] <= 'f' || 'A' <= text[i] <= 'F') by {
            assert(hex_value(text[i]) is Some);
        }
    } else if text.len() % 2 == 0 && forall|i: int|
        0 <= i < text.len() ==> ('0' <= #[trigger] text[i] <= '9' || 'a' <= text[i] <= 'f' || 'A'
            <= text[i] <= 'F') {
        assert(is_hex(text));
    }
}

} // verus!
