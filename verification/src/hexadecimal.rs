//! Bytes written as hexadecimal text, and read back.

use vstd::prelude::*;

verus! {

/// Failure to read hexadecimal text, as the `hex` crate reports it.
#[verifier::external_type_specification]
#[verifier::external_body]
pub struct ExFromHexError(hex::FromHexError);

/// The lower-case hexadecimal digit for a number below sixteen.
pub open spec fn hex_digit(n: int) -> char {
    if n < 10 {
        crate::text::digit_char(n as nat)
    } else if n == 10 {
        'a'
    } else if n == 11 {
        'b'
    } else if n == 12 {
        'c'
    } else if n == 13 {
        'd'
    } else if n == 14 {
        'e'
    } else {
        'f'
    }
}

/// Bytes as lower-case hexadecimal text: two digits for each byte, the high
/// half first.
pub open spec fn lower_hex(bytes: Seq<u8>) -> Seq<char> {
    Seq::new(
        2 * bytes.len(),
        |i: int|
            if i % 2 == 0 {
                hex_digit(bytes[i / 2] as int / 16)
            } else {
                hex_digit(bytes[i / 2] as int % 16)
            },
    )
}

/// What a hexadecimal digit counts for; `None` for any other character.
/// Letters count in either case.
pub open spec fn hex_value(c: char) -> Option<int> {
    if '0' <= c && c <= '9' {
        Some(c as int - '0' as int)
    } else if 'a' <= c && c <= 'f' {
        Some(c as int - 'a' as int + 10)
    } else if 'A' <= c && c <= 'F' {
        Some(c as int - 'A' as int + 10)
    } else {
        None
    }
}

/// Every character is a hexadecimal digit.
pub open spec fn is_hex(text: Seq<char>) -> bool {
    forall|i: int| 0 <= i < text.len() ==> (#[trigger] hex_value(text[i])) is Some
}

/// Every character is a decimal digit or a letter from `a` to `f`.
pub open spec fn is_lower_hex(text: Seq<char>) -> bool {
    forall|i: int|
        0 <= i < text.len() ==> ('0' <= #[trigger] text[i] && text[i] <= '9') || ('a' <= text[i]
            && text[i] <= 'f')
}

/// The bytes that hexadecimal text of even length stands for.
pub open spec fn hex_bytes(text: Seq<char>) -> Seq<u8> {
    Seq::new(
        text.len() / 2,
        |i: int| (hex_value(text[2 * i])->0 * 16 + hex_value(text[2 * i + 1])->0) as u8,
    )
}

/// Hexadecimal text is lower-case, twice as long as the bytes it was written
/// from, and reads back as those bytes.
pub proof fn lemma_lower_hex_reads_back(bytes: Seq<u8>)
    ensures
        lower_hex(bytes).len() == 2 * bytes.len(),
        is_lower_hex(lower_hex(bytes)),
        is_hex(lower_hex(bytes)),
        hex_bytes(lower_hex(bytes)) == bytes,
{
    let text = lower_hex(bytes);
    assert forall|i: int| 0 <= i < text.len() implies (('0' <= #[trigger] text[i] && text[i]
        <= '9') || ('a' <= text[i] && text[i] <= 'f')) && hex_value(text[i]) is Some by {
        lemma_digit_reads_back(bytes[i / 2] as int / 16);
        lemma_digit_reads_back(bytes[i / 2] as int % 16);
    }
    assert forall|i: int| 0 <= i < bytes.len() implies hex_bytes(text)[i] == bytes[i] by {
        lemma_digit_reads_back(bytes[i] as int / 16);
        lemma_digit_reads_back(bytes[i] as int % 16);
        assert(text[2 * i] == hex_digit(bytes[(2 * i) / 2] as int / 16));
        assert(text[2 * i + 1] == hex_digit(bytes[(2 * i + 1) / 2] as int % 16));
    }
    assert(hex_bytes(text) =~= bytes);
}

proof fn lemma_digit_reads_back(n: int)
    requires
        0 <= n < 16,
    ensures
        hex_value(hex_digit(n)) == Some(n),
        ('0' <= hex_digit(n) && hex_digit(n) <= '9') || ('a' <= hex_digit(n) && hex_digit(n)
            <= 'f'),
{
}

/// Writes bytes as lower-case hexadecimal text.
///
/// Trusted: `hex::encode`, which writes each byte as two digits taken from
/// `0123456789abcdef`, the high half first.
#[verifier::external_body]
pub(crate) fn hex_encode(bytes: &[u8]) -> (text: String)
    ensures
        text@ == lower_hex(bytes@),
{
    hex::encode(bytes)
}

/// Reads thirty-two bytes from hexadecimal text.
///
/// Trusted: `hex::decode_to_slice` on a buffer of thirty-two bytes. It
/// succeeds exactly on sixty-four hexadecimal digits, letters in either
/// case, and then fills the buffer with the bytes they stand for.
#[verifier::external_body]
pub(crate) fn hex_decode_32(text: &str) -> (res: Result<[u8; 32], hex::FromHexError>)
    ensures
        res is Ok <==> (text@.len() == 64 && is_hex(text@)),
        res matches Ok(bytes) ==> bytes@ == hex_bytes(text@),
{
    let mut bytes = [0u8; 32];
    hex::decode_to_slice(text, &mut bytes)?;
    Ok(bytes)
}

} // verus!
