//! Digests and byte-to-text encodings used by credentials and keys.

use base64::Engine;
use sha2::Digest;
use vstd::prelude::*;

verus! {

/// The SHA-256 digest of a byte sequence.
pub uninterp spec fn sha256(data: Seq<u8>) -> Seq<u8>;

/// Lower-case hexadecimal digit for a value below 16.
pub open spec fn hex_digit_lower(n: u8) -> char {
    seq!['0', '1', '2', '3', '4', '5', '6', '7', '8', '9', 'a', 'b', 'c', 'd', 'e', 'f'][n as int]
}

/// Lower-case hexadecimal text of a byte sequence: two digits per byte, high
/// nibble first.
pub open spec fn hex_lower(data: Seq<u8>) -> Seq<char>
    decreases data.len(),
{
    if data.len() == 0 {
        Seq::empty()
    } else {
        seq![hex_digit_lower(data[0] / 16), hex_digit_lower(data[0] % 16)] + hex_lower(
            data.drop_first(),
        )
    }
}

/// Hex text is twice as long as the bytes it encodes.
pub proof fn lemma_hex_lower_len(data: Seq<u8>)
    ensures
        hex_lower(data).len() == 2 * data.len(),
    decreases data.len(),
{
    if data.len() > 0 {
        lemma_hex_lower_len(data.drop_first());
    }
}

/// `sha2::Sha256::digest`: the claim is that the output is the SHA-256 digest
/// of the input, and that it is 32 bytes long.
#[verifier::external_body]
pub fn sha256_digest(data: &[u8]) -> (res: Vec<u8>)
    ensures
        res@ == sha256(data@),
        res@.len() == 32,
{
    sha2::Sha256::digest(data).to_vec()
}

/// `hex::encode`: the claim is that the output is the lower-case hex text of
/// the input bytes, two digits per byte, high nibble first.
#[verifier::external_body]
pub fn hex_encode(data: &[u8]) -> (res: String)
    ensures
        res@ == hex_lower(data@),
{
    hex::encode(data)
}

/// The URL-safe base64 alphabet (`A-Z a-z 0-9 - _`).
pub open spec fn base64url_alphabet() -> Seq<char> {
    seq![
        'A', 'B', 'C', 'D', 'E', 'F', 'G', 'H', 'I', 'J', 'K', 'L', 'M', 'N', 'O', 'P', 'Q', 'R',
        'S', 'T', 'U', 'V', 'W', 'X', 'Y', 'Z', 'a', 'b', 'c', 'd', 'e', 'f', 'g', 'h', 'i', 'j',
        'k', 'l', 'm', 'n', 'o', 'p', 'q', 'r', 's', 't', 'u', 'v', 'w', 'x', 'y', 'z', '0', '1',
        '2', '3', '4', '5', '6', '7', '8', '9', '-', '_'
    ]
}

/// URL-safe base64 of a byte sequence without `=` padding: each group of
/// three bytes gives four characters, a final group of one or two bytes gives
/// two or three.
pub open spec fn base64url_nopad(data: Seq<u8>) -> Seq<char>
    decreases data.len(),
{
    let a = base64url_alphabet();
    let b0: int = data[0] as int;
    if data.len() == 0 {
        Seq::empty()
    } else if data.len() == 1 {
        seq![a[b0 / 4], a[(b0 % 4) * 16]]
    } else if data.len() == 2 {
        let b1: int = data[1] as int;
        seq![a[b0 / 4], a[(b0 % 4) * 16 + b1 / 16], a[(b1 % 16) * 4]]
    } else {
        let b1: int = data[1] as int;
        let b2: int = data[2] as int;
        seq![a[b0 / 4], a[(b0 % 4) * 16 + b1 / 16], a[(b1 % 16) * 4 + b2 / 64], a[b2 % 64]]
            + base64url_nopad(data.skip(3))
    }
}

/// `base64::engine::general_purpose::URL_SAFE_NO_PAD.encode`: the claim is
/// that the output is the URL-safe, unpadded base64 text of the input.
#[verifier::external_body]
pub fn base64url_encode(data: &[u8]) -> (res: String)
    ensures
        res@ == base64url_nopad(data@),
{
    base64::engine::general_purpose::URL_SAFE_NO_PAD.encode(data)
}

} // verus!
