//! Hashing, encoding and randomness from outside crates, and the hex
//! encoding the library builds on them.
use vstd::prelude::*;

use base64::Engine;
use rand::RngCore;
use sha2::Digest;
use subtle::ConstantTimeEq;

verus! {

/// The SHA-256 digest of `data`.
pub uninterp spec fn sha256_digest(data: Seq<u8>) -> Seq<u8>;

/// The base64 encoding of `data` with the URL-safe alphabet and no padding.
pub uninterp spec fn base64_url_unpadded(data: Seq<u8>) -> Seq<char>;

/// Length of the unpadded base64 encoding of `n` bytes.
pub open spec fn unpadded_base64_len(n: nat) -> nat {
    n / 3 * 4 + if n % 3 == 1 {
        2nat
    } else if n % 3 == 2 {
        3nat
    } else {
        0nat
    }
}

/// The characters of the URL-safe base64 alphabet.
pub open spec fn is_url_safe_base64_char(c: char) -> bool {
    ('A' <= c && c <= 'Z') || ('a' <= c && c <= 'z') || ('0' <= c && c <= '9') || c == '-' || c
        == '_'
}

/// `Sha256::digest` of sha2: the digest, 32 bytes long, as a function of the
/// input alone.
#[verifier::external_body]
pub(crate) fn sha256(data: &[u8]) -> (r: Vec<u8>)
    ensures
        r@ == sha256_digest(data@),
        r@.len() == 32,
{
    sha2::Sha256::digest(data).to_vec()
}

/// `Engine::encode` of base64 with the `URL_SAFE_NO_PAD` engine: the encoding is a
/// function of the input, its length follows RFC 4648 without padding, and
/// it uses only the URL-safe alphabet. The length computation panics when it
/// overflows `usize`, which `requires` rules out.
#[verifier::external_body]
pub(crate) fn base64_url_encode(data: &[u8]) -> (r: String)
    requires
        unpadded_base64_len(data@.len()) <= usize::MAX,
    ensures
        r@ == base64_url_unpadded(data@),
        r@.len() == unpadded_base64_len(data@.len()),
        forall|i: int| 0 <= i < r@.len() ==> is_url_safe_base64_char(#[trigger] r@[i]),
{
    base64::engine::general_purpose::URL_SAFE_NO_PAD.encode(data)
}

/// `RngCore::fill_bytes` of rand's `OsRng` on a 32-byte buffer: 32 bytes from
/// the operating system. Nothing is stated of their values.
#[verifier::external_body]
pub(crate) fn os_random_32() -> (r: Vec<u8>)
    ensures
        r@.len() == 32,
{
    let mut bytes = [0u8; 32];
    rand::rngs::OsRng.fill_bytes(&mut bytes);
    bytes.to_vec()
}

/// `RngCore::fill_bytes` of rand's `thread_rng()` on a 32-byte buffer: 32 bytes
/// from the thread-local generator. Nothing is stated of their values.
#[verifier::external_body]
pub(crate) fn thread_random_32() -> (r: Vec<u8>)
    ensures
        r@.len() == 32,
{
    let mut bytes = [0u8; 32];
    rand::thread_rng().fill_bytes(&mut bytes);
    bytes.to_vec()
}

/// `ConstantTimeEq::ct_eq` of subtle on byte slices: 1 exactly when both slices
/// have the same length and the same bytes.
#[verifier::external_body]
pub(crate) fn constant_time_eq(a: &[u8], b: &[u8]) -> (r: bool)
    ensures
        r == (a@ == b@),
{
    bool::from(a.ct_eq(b))
}

/// The lowercase hex digit of `d`.
pub open spec fn hex_digit(d: int) -> char {
    if d < 10 {
        ((d + 48) as u8) as char
    } else {
        ((d + 87) as u8) as char
    }
}

/// Lowercase hex encoding: two digits per byte, high nibble first.
pub open spec fn hex_lower(bytes: Seq<u8>) -> Seq<char>
    decreases bytes.len(),
{
    if bytes.len() == 0 {
        seq![]
    } else {
        hex_lower(bytes.drop_last()) + seq![
            hex_digit(bytes.last() as int / 16),
            hex_digit(bytes.last() as int % 16),
        ]
    }
}

/// Whether `c` is one of `0-9a-f`.
pub open spec fn is_lower_hex_digit(c: char) -> bool {
    ('0' <= c && c <= '9') || ('a' <= c && c <= 'f')
}

fn hex_char(d: u8) -> (c: char)
    requires
        d < 16,
    ensures
        c == hex_digit(d as int),
        is_lower_hex_digit(c),
{
    if d < 10 {
        (d + 48) as char
    } else {
        (d + 87) as char
    }
}

/// The hex encoding is twice as long as its input and holds only hex digits.
pub proof fn hex_lower_shape(bytes: Seq<u8>)
    ensures
        hex_lower(bytes).len() == 2 * bytes.len(),
        forall|i: int|
            0 <= i < hex_lower(bytes).len() ==> is_lower_hex_digit(#[trigger] hex_lower(bytes)[i]),
    decreases bytes.len(),
{
    if bytes.len() > 0 {
        hex_lower_shape(bytes.drop_last());
        let prev = hex_lower(bytes.drop_last());
        let b = bytes.last();
        assert forall|i: int| 0 <= i < hex_lower(bytes).len() implies is_lower_hex_digit(
            #[trigger] hex_lower(bytes)[i],
        ) by {
            if i < prev.len() {
                assert(hex_lower(bytes)[i] == prev[i]);
            } else {
                let d = if i == prev.len() { b as int / 16 } else { b as int % 16 };
                assert(0 <= d < 16);
            }
        }
    }
}

/// Encode a byte slice as a lowercase hex string.
pub fn hex_encode(bytes: &[u8]) -> (r: String)
    ensures
        r@ == hex_lower(bytes@),
{
    let mut chars: Vec<char> = Vec::new();
    let mut i: usize = 0;
    while i < bytes.len()
        invariant
            i <= bytes@.len(),
            chars@ == hex_lower(bytes@.take(i as int)),
        decreases bytes.len() - i,
    {
        let b = bytes[i];
        chars.push(hex_char(b / 16));
        chars.push(hex_char(b % 16));
        assert(bytes@.take(i + 1).drop_last() =~= bytes@.take(i as int));
        i = i + 1;
    }
    assert(bytes@.take(bytes@.len() as int) =~= bytes@);
    crate::text::string_from_chars(&chars)
}

} // verus!
