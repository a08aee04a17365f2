use vstd::prelude::*;
use crate::error::VaultError;
use vstd::slice::slice_subrange;
use vstd::utf8::{encode_utf8, is_ascii_chars, is_ascii_chars_encode_utf8};
use crate::hex_text::{
    ascii_bytes, hex_decode, hex_decode_spec, hex_digit, hex_encode, hex_encode_spec, lemma_hex_encode_chars,
    lemma_hex_round_trip,
};

verus! {

/// The byte of the `:` that separates the two hex fields of a record line.
pub const SEPARATOR: u8 = 0x3a;

/// The text of a record line: the hex of the ciphertext, `:`, the hex of the nonce.
pub open spec fn record_line_spec(ciphertext: Seq<u8>, nonce: Seq<u8>) -> Seq<char> {
    hex_encode_spec(ciphertext) + seq![':'] + hex_encode_spec(nonce)
}

/// `k` is the position of the one and only separator byte of `line`.
pub open spec fn single_separator_at(line: Seq<u8>, k: int) -> bool {
    &&& 0 <= k < line.len()
    &&& line[k] == SEPARATOR
    &&& forall|j: int| 0 <= j < line.len() && j != k ==> line[j] != SEPARATOR
}

/// `line` holds exactly one separator, so that splitting it at `:` gives two parts.
pub open spec fn has_single_separator(line: Seq<u8>) -> bool {
    exists|k: int| single_separator_at(line, k)
}

/// The position of the separator of a line that holds exactly one.
pub open spec fn separator_index(line: Seq<u8>) -> int {
    choose|k: int| single_separator_at(line, k)
}

/// How a line of the database file (as UTF-8 bytes) reads as a record: `Ok(None)`
/// when it does not split into two parts at `:` (such lines are skipped);
/// otherwise the ciphertext and the 12-byte nonce, or why they are not there.
pub open spec fn parse_record_spec(line: Seq<u8>) -> Result<Option<(Seq<u8>, Seq<u8>)>, VaultError> {
    if !has_single_separator(line) {
        Ok(None)
    } else {
        let k = separator_index(line);
        match hex_decode_spec(line.subrange(0, k)) {
            None => Err(VaultError::InvalidPayloadHex),
            Some(ciphertext) => match hex_decode_spec(line.subrange(k + 1, line.len() as int)) {
                None => Err(VaultError::InvalidNonceHex),
                Some(nonce) => if nonce.len() != 12 {
                    Err(VaultError::InvalidNonceLength)
                } else {
                    Ok(Some((ciphertext, nonce)))
                },
            },
        }
    }
}

/// The plain value of what [`parse_record`] returns.
pub open spec fn parsed_view(r: Result<Option<(Vec<u8>, [u8; 12])>, VaultError>) -> Result<
    Option<(Seq<u8>, Seq<u8>)>,
    VaultError,
> {
    match r {
        Ok(Some((c, n))) => Ok(Some((c@, n@))),
        Ok(None) => Ok(None),
        Err(e) => Err(e),
    }
}

/// Writes the record line of a ciphertext and its nonce.
pub fn format_record(ciphertext: &[u8], nonce: &[u8; 12]) -> (res: String)
    ensures
        res@ == record_line_spec(ciphertext@, nonce@),
        res@ == hex_encode_spec(ciphertext@) + seq![':'] + hex_encode_spec(nonce@),
{
    let mut line = hex_encode(ciphertext);
    let sep = ":";
    proof {
        reveal_strlit(":");
    }
    line.append(sep);
    let nonce_hex = hex_encode(nonce.as_slice());
    line.append(nonce_hex.as_str());
    line
}

/// Reads a line of the database file as a record (see [`parse_record_spec`]).
pub fn parse_record(line: &str) -> (res: Result<Option<(Vec<u8>, [u8; 12])>, VaultError>)
    ensures
        parsed_view(res) == parse_record_spec(encode_utf8(line@)),
        forall|c: Seq<u8>, n: Seq<u8>|
            #![trigger hex_encode_spec(c), hex_encode_spec(n)]
            n.len() == 12 && line@ == hex_encode_spec(c) + seq![':'] + hex_encode_spec(n) ==> parsed_view(res)
                == Ok::<Option<(Seq<u8>, Seq<u8>)>, VaultError>(Some((c, n))),
{
    proof {
        assert forall|c: Seq<u8>, n: Seq<u8>|
            #![trigger hex_encode_spec(c), hex_encode_spec(n)]
            n.len() == 12 && line@ == hex_encode_spec(c) + seq![':'] + hex_encode_spec(n) implies parse_record_spec(
                encode_utf8(line@),
            ) == Ok::<Option<(Seq<u8>, Seq<u8>)>, VaultError>(Some((c, n))) by {
            lemma_parse_hex_line(c, n);
        }
    }
    let bytes = line.as_bytes();
    let n = bytes.len();
    let mut count: usize = 0;
    let mut pos: usize = 0;
    let mut i: usize = 0;
    while i < n && count < 2
        invariant
            n == bytes@.len(),
            0 <= i <= n,
            count <= 2,
            count == 0 ==> forall|j: int| 0 <= j < i ==> bytes@[j] != SEPARATOR,
            count == 1 ==> pos < i && bytes@[pos as int] == SEPARATOR && forall|j: int|
                0 <= j < i && j != pos ==> bytes@[j] != SEPARATOR,
            count == 2 ==> exists|a: int, b: int|
                0 <= a < b < n && bytes@[a] == SEPARATOR && bytes@[b] == SEPARATOR,
        decreases n - i,
    {
        if bytes[i] == SEPARATOR {
            if count == 0 {
                pos = i;
                count = 1;
            } else {
                assert(bytes@[pos as int] == SEPARATOR && bytes@[i as int] == SEPARATOR);
                count = 2;
            }
        }
        i = i + 1;
    }
    if count != 1 {
        proof {
            if count == 0 {
                assert forall|k: int| !single_separator_at(bytes@, k) by {
                    if 0 <= k < n {
                        assert(bytes@[k] != SEPARATOR);
                    }
                }
            } else {
                let (a, b) = choose|a: int, b: int|
                    0 <= a < b < n && bytes@[a] == SEPARATOR && bytes@[b] == SEPARATOR;
                assert forall|k: int| !single_separator_at(bytes@, k) by {
                    if single_separator_at(bytes@, k) {
                        if k == a {
                            assert(bytes@[b] != SEPARATOR);
                        } else {
                            assert(bytes@[a] != SEPARATOR);
                        }
                    }
                }
            }
        }
        return Ok(None);
    }
    proof {
        assert(single_separator_at(bytes@, pos as int));
        let k = separator_index(bytes@);
        assert(single_separator_at(bytes@, k));
        if k != pos {
            assert(bytes@[pos as int] != SEPARATOR);
        }
    }
    let payload_text = slice_subrange(bytes, 0, pos);
    let nonce_text = slice_subrange(bytes, pos + 1, n);
    match hex_decode(payload_text) {
        None => Err(VaultError::InvalidPayloadHex),
        Some(ciphertext) => match hex_decode(nonce_text) {
            None => Err(VaultError::InvalidNonceHex),
            Some(nv) => {
                if nv.len() != 12 {
                    Err(VaultError::InvalidNonceLength)
                } else {
                    let nonce: [u8; 12] = [
                        nv[0], nv[1], nv[2], nv[3], nv[4], nv[5], nv[6], nv[7], nv[8], nv[9],
                        nv[10], nv[11],
                    ];
                    assert(nonce@ =~= nv@);
                    Ok(Some((ciphertext, nonce)))
                }
            },
        },
    }
}

/// A record line is ASCII text without white space: hex digits and one `:`.
pub proof fn lemma_record_line_chars(ciphertext: Seq<u8>, nonce: Seq<u8>)
    ensures
        forall|i: int|
            0 <= i < record_line_spec(ciphertext, nonce).len() ==> {
                let c = #[trigger] record_line_spec(ciphertext, nonce)[i];
                '0' <= c <= ':' || 'a' <= c <= 'f'
            },
        is_ascii_chars(record_line_spec(ciphertext, nonce)),
        encode_utf8(record_line_spec(ciphertext, nonce)) == ascii_bytes(
            record_line_spec(ciphertext, nonce),
        ),
{
    let h1 = hex_encode_spec(ciphertext);
    let h2 = hex_encode_spec(nonce);
    let line = record_line_spec(ciphertext, nonce);
    lemma_hex_encode_chars(ciphertext);
    lemma_hex_encode_chars(nonce);
    assert forall|i: int| 0 <= i < line.len() implies {
        let c = #[trigger] line[i];
        '0' <= c <= ':' || 'a' <= c <= 'f'
    } by {
        if i < h1.len() {
            assert(line[i] == h1[i]);
        } else if i == h1.len() {
            assert(line[i] == ':');
        } else {
            assert(line[i] == h2[i - h1.len() - 1]);
        }
    }
    is_ascii_chars_encode_utf8(line);
    assert(encode_utf8(line) =~= ascii_bytes(line));
}

/// Reading a record line back gives the ciphertext and the nonce it was written from.
pub proof fn lemma_record_round_trip(ciphertext: Seq<u8>, nonce: Seq<u8>)
    requires
        nonce.len() == 12,
    ensures
        parse_record_spec(encode_utf8(record_line_spec(ciphertext, nonce))) == Ok::<
            Option<(Seq<u8>, Seq<u8>)>,
            VaultError,
        >(Some((ciphertext, nonce))),
{
    let h1 = hex_encode_spec(ciphertext);
    let h2 = hex_encode_spec(nonce);
    let line = record_line_spec(ciphertext, nonce);
    lemma_record_line_chars(ciphertext, nonce);
    lemma_hex_encode_chars(ciphertext);
    lemma_hex_encode_chars(nonce);
    let b = encode_utf8(line);
    let k = h1.len() as int;
    assert(b[k] == SEPARATOR) by {
        assert(line[k] == ':');
    }
    assert forall|j: int| 0 <= j < b.len() && j != k implies b[j] != SEPARATOR by {
        if j < k {
            assert(line[j] == h1[j]);
        } else {
            assert(line[j] == h2[j - k - 1]);
        }
    }
    assert(single_separator_at(b, k));
    let k2 = separator_index(b);
    if k2 != k {
        assert(b[k] != SEPARATOR);
    }
    assert(b.subrange(0, k) =~= ascii_bytes(h1));
    assert(b.subrange(k + 1, b.len() as int) =~= ascii_bytes(h2));
    lemma_hex_round_trip(ciphertext);
    lemma_hex_round_trip(nonce);
}

/// A record line is the lowercase hex of the ciphertext bytes in order, a
/// `:`, and the lowercase hex of the nonce bytes in order.
pub proof fn lemma_record_line_is_hex(ciphertext: Seq<u8>, nonce: Seq<u8>)
    ensures
        record_line_spec(ciphertext, nonce) == hex_encode_spec(ciphertext) + seq![':'] + hex_encode_spec(nonce),
        record_line_spec(ciphertext, nonce).len() == 2 * ciphertext.len() + 1 + 2 * nonce.len(),
        forall|i: int| 0 <= i < ciphertext.len() ==> {
            &&& record_line_spec(ciphertext, nonce)[2 * i] == hex_digit(#[trigger] ciphertext[i] as int / 16)
            &&& record_line_spec(ciphertext, nonce)[2 * i + 1] == hex_digit(ciphertext[i] as int % 16)
        },
        record_line_spec(ciphertext, nonce)[2 * ciphertext.len() as int] == ':',
{
    let line = record_line_spec(ciphertext, nonce);
    let h1 = hex_encode_spec(ciphertext);
    assert forall|i: int| 0 <= i < ciphertext.len() implies {
        &&& line[2 * i] == hex_digit(#[trigger] ciphertext[i] as int / 16)
        &&& line[2 * i + 1] == hex_digit(ciphertext[i] as int % 16)
    } by {
        assert(line[2 * i] == h1[2 * i]);
        assert(line[2 * i + 1] == h1[2 * i + 1]);
        assert((2 * i) / 2 == i);
        assert((2 * i + 1) / 2 == i);
        assert((2 * i) % 2 == 0);
        assert((2 * i + 1) % 2 == 1);
    }
}

/// Reading the line `hex(ciphertext):hex(nonce)` (lowercase hex of the bytes
/// in order) with a 12-byte nonce gives exactly that ciphertext and nonce.
pub proof fn lemma_parse_hex_line(ciphertext: Seq<u8>, nonce: Seq<u8>)
    requires
        nonce.len() == 12,
    ensures
        parse_record_spec(encode_utf8(hex_encode_spec(ciphertext) + seq![':'] + hex_encode_spec(nonce)))
            == Ok::<Option<(Seq<u8>, Seq<u8>)>, VaultError>(Some((ciphertext, nonce))),
{
    lemma_record_round_trip(ciphertext, nonce);
}

} // verus!
