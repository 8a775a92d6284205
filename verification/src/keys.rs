//! Key normalization: a caller-supplied key string (or the built-in default,
//! selected by the empty string) is converted into exactly 32 raw key bytes,
//! trying three encodings in a fixed priority order: raw 32-byte text first,
//! then hexadecimal, then standard base64.
//!
//! The raw-text check runs before any decoding, so a 32-byte string that also
//! happens to be valid hex or base64 is always taken as the raw key itself.
//! This precedence is a compatibility footgun, but changing it would silently
//! reinterpret existing keys, so it is preserved exactly.

use vstd::prelude::*;
use vstd::string::StringSliceAdditionalSpecFns;

use crate::errors::CryptoError;

verus! {

/// The built-in development-only default key: the 32 ASCII bytes of the text
/// `agfdsfsdafsdafdsafsdafdsafdfghdy`. It is selected when the caller passes
/// an empty key string, and is unsafe for production: security-sensitive
/// deployments must configure their own key.
pub open spec fn default_key_bytes() -> Seq<u8> {
    seq![
        97u8, 103, 102, 100, 115, 102, 115, 100, 97, 102, 115, 100, 97, 102, 100, 115,
        97, 102, 115, 100, 97, 102, 100, 115, 97, 102, 100, 102, 103, 104, 100, 121,
    ]
}

/// The default key as owned bytes, for the raw-text normalization path.
fn default_key_vec() -> (r: Vec<u8>)
    ensures
        r@ == default_key_bytes(),
{
    let bytes: [u8; 32] = [
        97u8, 103, 102, 100, 115, 102, 115, 100, 97, 102, 115, 100, 97, 102, 100, 115,
        97, 102, 115, 100, 97, 102, 100, 115, 97, 102, 100, 102, 103, 104, 100, 121,
    ];
    let v = vstd::slice::slice_to_vec(bytes.as_slice());
    proof {
        assert(v@ =~= default_key_bytes());
    }
    v
}

/// A byte is an ASCII hex digit: `0-9`, `a-f` or `A-F`.
pub open spec fn is_hex_digit(b: u8) -> bool {
    (48 <= b && b <= 57) || (97 <= b && b <= 102) || (65 <= b && b <= 70)
}

/// The numeric value of an ASCII hex digit.
pub open spec fn hex_digit_value(b: u8) -> u8
    recommends
        is_hex_digit(b),
{
    if 48 <= b && b <= 57 {
        (b - 48) as u8
    } else if 97 <= b && b <= 102 {
        (b - 87) as u8
    } else {
        (b - 55) as u8
    }
}

/// A well-formed hex string: even length, every byte a hex digit.
pub open spec fn is_hex_string(s: Seq<u8>) -> bool {
    s.len() % 2 == 0 && forall|i: int| 0 <= i < s.len() ==> is_hex_digit(#[trigger] s[i])
}

/// The bytes a well-formed hex string denotes: each digit pair becomes one
/// byte, high digit first.
pub open spec fn hex_bytes(s: Seq<u8>) -> Seq<u8>
    recommends
        is_hex_string(s),
    decreases s.len(),
{
    if s.len() < 2 {
        Seq::empty()
    } else {
        seq![(hex_digit_value(s[0]) * 16 + hex_digit_value(s[1])) as u8] + hex_bytes(s.skip(2))
    }
}

/// Hex decoding as a whole: `Some` exactly on well-formed hex strings.
pub open spec fn hex_decoding(s: Seq<u8>) -> Option<Seq<u8>> {
    if is_hex_string(s) {
        Some(hex_bytes(s))
    } else {
        None
    }
}

/// Relies on `hex::decode`: it succeeds exactly on an even-length string of
/// ASCII hex digits (`0-9`, `a-f`, `A-F`), and maps each digit pair to one
/// byte, high digit first.
#[verifier::external_body]
fn hex_decode(s: &[u8]) -> (r: Option<Vec<u8>>)
    ensures
        r matches Some(v) ==> hex_decoding(s@) == Some(v@),
        r is None ==> hex_decoding(s@) is None,
{
    match hex::decode(s) {
        Ok(v) => Some(v),
        Err(_) => None,
    }
}

/// What base64's STANDARD engine decode returns for a given input: a function
/// of the input bytes alone (`None` standing for a decode error).
pub uninterp spec fn base64_standard_decoding(s: Seq<u8>) -> Option<Seq<u8>>;

/// Relies on `base64::engine::general_purpose::STANDARD.decode`: standard
/// alphabet with padding, deterministic in its input; `Some` on valid base64,
/// `None` otherwise.
#[verifier::external_body]
fn base64_decode(s: &[u8]) -> (r: Option<Vec<u8>>)
    ensures
        r matches Some(v) ==> base64_standard_decoding(s@) == Some(v@),
        r is None ==> base64_standard_decoding(s@) is None,
{
    match base64::Engine::decode(&base64::engine::general_purpose::STANDARD, s) {
        Ok(v) => Some(v),
        Err(_) => None,
    }
}

/// The 32 key bytes a key string (given as its UTF-8 bytes) normalizes to,
/// or `None` when no accepted encoding yields exactly 32 bytes.
///
/// Priority order, first match wins: the empty string is replaced by the
/// built-in default; a 32-byte string is the key itself; then hex, then
/// standard base64, each accepted only when it decodes to exactly 32 bytes.
pub open spec fn normalized_key(kb: Seq<u8>) -> Option<Seq<u8>> {
    let input = if kb.len() == 0 {
        default_key_bytes()
    } else {
        kb
    };
    if input.len() == 32 {
        Some(input)
    } else if hex_decoding(input) matches Some(v) && v.len() == 32 {
        hex_decoding(input)
    } else if base64_standard_decoding(input) matches Some(v) && v.len() == 32 {
        base64_standard_decoding(input)
    } else {
        None
    }
}

/// Every successfully normalized key has exactly 32 bytes.
pub proof fn lemma_normalized_key_len(kb: Seq<u8>)
    ensures
        normalized_key(kb) matches Some(k) ==> k.len() == 32,
{
}

/// Law: a nonempty key string of exactly 32 bytes is always taken as the raw
/// key itself, never decoded — even when it would also parse as hex or
/// base64.
pub proof fn lemma_raw_key_precedence(kb: Seq<u8>)
    requires
        kb.len() == 32,
    ensures
        normalized_key(kb) == Some(kb),
{
}

/// Law: the empty key string and the built-in default key text normalize to
/// the identical 32 key bytes, so data encrypted under either decrypts under
/// the other.
pub proof fn lemma_default_key_fallback()
    ensures
        normalized_key(Seq::<u8>::empty()) == Some(default_key_bytes()),
        normalized_key(default_key_bytes()) == Some(default_key_bytes()),
{
}

/// The lowercase ASCII hex digit for a value below 16.
pub open spec fn hex_digit_encoding(v: u8) -> u8
    recommends
        v < 16,
{
    if v < 10 {
        (48 + v) as u8
    } else {
        (87 + v) as u8
    }
}

/// The lowercase hex encoding of a byte sequence: two digits per byte, high
/// digit first.
pub open spec fn hex_encoding(data: Seq<u8>) -> Seq<u8>
    decreases data.len(),
{
    if data.len() == 0 {
        Seq::empty()
    } else {
        seq![hex_digit_encoding(data[0] / 16), hex_digit_encoding(data[0] % 16)] + hex_encoding(
            data.skip(1),
        )
    }
}

/// Hex encoding writes two digits per byte.
pub proof fn lemma_hex_encoding_len(data: Seq<u8>)
    ensures
        hex_encoding(data).len() == 2 * data.len(),
    decreases data.len(),
{
    if data.len() > 0 {
        lemma_hex_encoding_len(data.skip(1));
    }
}

/// Hex encoding yields a well-formed hex string, and decoding it gives the
/// original bytes back.
pub proof fn lemma_hex_decoding_of_encoding(data: Seq<u8>)
    ensures
        is_hex_string(hex_encoding(data)),
        hex_bytes(hex_encoding(data)) == data,
    decreases data.len(),
{
    lemma_hex_encoding_len(data);
    if data.len() == 0 {
        assert(hex_bytes(hex_encoding(data)) =~= data);
    } else {
        let s = hex_encoding(data);
        let rest = hex_encoding(data.skip(1));
        lemma_hex_decoding_of_encoding(data.skip(1));
        lemma_hex_encoding_len(data.skip(1));
        assert(s.skip(2) =~= rest);
        assert(is_hex_string(s));
        let b = data[0];
        assert(b == 16 * (b / 16) + b % 16) by (nonlinear_arith);
        assert(hex_digit_value(s[0]) == b / 16 && hex_digit_value(s[1]) == b % 16);
        assert(hex_bytes(s) =~= data);
    }
}

/// Law: the hex encoding of any 32-byte value — which has 64 characters, so
/// never hits the raw-text path — normalizes to exactly that value.
pub proof fn lemma_hex_key_equivalence(v: Seq<u8>)
    requires
        v.len() == 32,
    ensures
        normalized_key(hex_encoding(v)) == Some(v),
{
    lemma_hex_encoding_len(v);
    lemma_hex_decoding_of_encoding(v);
}

/// Normalize a key string into exactly 32 key bytes. An empty string selects
/// the built-in default; otherwise the string is taken as the raw key when it
/// has exactly 32 bytes, else hex-decoded, else base64-decoded, and accepted
/// only when the result has exactly 32 bytes.
pub fn parse_key(key_str: &str) -> (r: Result<Vec<u8>, CryptoError>)
    ensures
        r matches Ok(k) ==> normalized_key(key_str.spec_bytes()) == Some(k@) && k@.len() == 32,
        r matches Err(e) ==> e == CryptoError::KeyFormat && normalized_key(
            key_str.spec_bytes(),
        ) is None,
        r is Ok <==> normalized_key(key_str.spec_bytes()) is Some,
{
    let raw = key_str.as_bytes();
    let input: Vec<u8> = if raw.len() == 0 {
        default_key_vec()
    } else {
        vstd::slice::slice_to_vec(raw)
    };
    if input.len() == 32 {
        return Ok(input);
    }
    if let Some(v) = hex_decode(input.as_slice()) {
        if v.len() == 32 {
            return Ok(v);
        }
    }
    if let Some(v) = base64_decode(input.as_slice()) {
        if v.len() == 32 {
            return Ok(v);
        }
    }
    Err(CryptoError::KeyFormat)
}

} // verus!
