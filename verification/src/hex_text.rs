use vstd::prelude::*;

verus! {

/// The lowercase hexadecimal digit of a nibble (`0..16`).
pub open spec fn hex_digit(n: int) -> char {
    if n == 0 { '0' } else if n == 1 { '1' } else if n == 2 { '2' } else if n == 3 { '3' }
    else if n == 4 { '4' } else if n == 5 { '5' } else if n == 6 { '6' } else if n == 7 { '7' }
    else if n == 8 { '8' } else if n == 9 { '9' } else if n == 10 { 'a' } else if n == 11 { 'b' }
    else if n == 12 { 'c' } else if n == 13 { 'd' } else if n == 14 { 'e' } else { 'f' }
}

/// Lowercase hex text of a byte sequence: two digits per byte, high nibble first.
pub open spec fn hex_encode_spec(bytes: Seq<u8>) -> Seq<char> {
    Seq::new(
        2 * bytes.len(),
        |i: int|
            if i % 2 == 0 {
                hex_digit(bytes[i / 2] as int / 16)
            } else {
                hex_digit(bytes[i / 2] as int % 16)
            },
    )
}

/// The value of one hex digit byte, upper or lower case; `None` for any other byte.
pub open spec fn hex_value(c: u8) -> Option<int> {
    if 0x30 <= c <= 0x39 {
        Some(c - 0x30)
    } else if 0x41 <= c <= 0x46 {
        Some(c - 0x41 + 10)
    } else if 0x61 <= c <= 0x66 {
        Some(c - 0x61 + 10)
    } else {
        None
    }
}

/// Text that decodes as hex: an even number of bytes, each one a hex digit.
pub open spec fn is_hex_text(text: Seq<u8>) -> bool {
    &&& text.len() % 2 == 0
    &&& forall|i: int| 0 <= i < text.len() ==> (#[trigger] hex_value(text[i])) is Some
}

/// The bytes that hex text stands for, or `None` when it is not hex text.
pub open spec fn hex_decode_spec(text: Seq<u8>) -> Option<Seq<u8>> {
    if is_hex_text(text) {
        Some(
            Seq::new(
                text.len() / 2,
                |i: int| (hex_value(text[2 * i])->0 * 16 + hex_value(text[2 * i + 1])->0) as u8,
            ),
        )
    } else {
        None
    }
}

/// The bytes of an ASCII character sequence, one per character.
pub open spec fn ascii_bytes(chars: Seq<char>) -> Seq<u8> {
    chars.map_values(|c: char| c as u8)
}

/// `hex::encode`: lowercase hex text of `data`, two digits per byte.
#[verifier::external_body]
pub(crate) fn hex_encode(data: &[u8]) -> (res: String)
    ensures
        res@ == hex_encode_spec(data@),
{
    hex::encode(data)
}

/// `hex::decode`: the bytes that `text` stands for; `None` where `hex::decode`
/// reports an odd length or a byte that is no hex digit.
#[verifier::external_body]
pub(crate) fn hex_decode(text: &[u8]) -> (res: Option<Vec<u8>>)
    ensures
        match res {
            Some(v) => hex_decode_spec(text@) == Some(v@),
            None => hex_decode_spec(text@) is None,
        },
{
    hex::decode(text).ok()
}

proof fn lemma_hex_digit_value(n: int)
    requires
        0 <= n < 16,
    ensures
        hex_value(hex_digit(n) as u8) == Some(n),
        '0' <= hex_digit(n) <= '9' || 'a' <= hex_digit(n) <= 'f',
{
}

/// Hex text is ASCII: every character is a digit `0-9` or a letter `a-f`.
pub proof fn lemma_hex_encode_chars(bytes: Seq<u8>)
    ensures
        hex_encode_spec(bytes).len() == 2 * bytes.len(),
        forall|i: int|
            0 <= i < hex_encode_spec(bytes).len() ==> ('0' <= #[trigger] hex_encode_spec(bytes)[i]
                <= '9' || 'a' <= hex_encode_spec(bytes)[i] <= 'f'),
{
    assert forall|i: int| 0 <= i < hex_encode_spec(bytes).len() implies ('0' <= #[trigger] hex_encode_spec(
        bytes,
    )[i] <= '9' || 'a' <= hex_encode_spec(bytes)[i] <= 'f') by {
        lemma_hex_digit_value(bytes[i / 2] as int / 16);
        lemma_hex_digit_value(bytes[i / 2] as int % 16);
    }
}

/// Decoding the hex text of any byte sequence gives that byte sequence back.
pub proof fn lemma_hex_round_trip(bytes: Seq<u8>)
    ensures
        hex_decode_spec(ascii_bytes(hex_encode_spec(bytes))) == Some(bytes),
{
    let text = ascii_bytes(hex_encode_spec(bytes));
    assert forall|i: int| 0 <= i < text.len() implies (#[trigger] hex_value(text[i])) is Some by {
        lemma_hex_digit_value(bytes[i / 2] as int / 16);
        lemma_hex_digit_value(bytes[i / 2] as int % 16);
    }
    let decoded = hex_decode_spec(text)->0;
    assert forall|i: int| 0 <= i < bytes.len() implies decoded[i] == bytes[i] by {
        lemma_hex_digit_value(bytes[i] as int / 16);
        lemma_hex_digit_value(bytes[i] as int % 16);
        assert((2 * i) / 2 == i);
        assert((2 * i + 1) / 2 == i);
        assert((2 * i) % 2 == 0);
        assert((2 * i + 1) % 2 == 1);
    }
    assert(decoded =~= bytes);
}

} // verus!
