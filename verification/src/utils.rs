//! Utilities: time, hashing, hex and base64 encodings, nonces and JSON parsing.

use vstd::prelude::*;
use vstd::utf8::*;
use vstd::string::StringSliceAdditionalSpecFns;
use base64::Engine;
use rand::Rng;
use sha2::Digest;
use crate::errors::{ZkpError, ZkpResult};
use crate::json::{parse_json, json_bytes_valid};

verus! {

broadcast use is_ascii_chars_encode_utf8;

// ---------------------------------------------------------------- time

/// Current Unix time in seconds: `SystemTime::now().duration_since(UNIX_EPOCH)`, or 0
/// when the clock is before the epoch. What it returns depends on the clock: nothing
/// is stated of it.
#[verifier::external_body]
pub fn current_timestamp() -> u64 {
    std::time::SystemTime::now()
        .duration_since(std::time::UNIX_EPOCH)
        .unwrap_or_default()
        .as_secs()
}

/// Whether a proof made at `timestamp` is at most `max_age` seconds old at `now`.
pub open spec fn is_fresh(now: u64, timestamp: u64, max_age: u64) -> bool {
    now >= timestamp && now - timestamp <= max_age
}

/// Whether `timestamp` is at most `max_age` seconds before `now` (and not after it).
pub fn timestamp_is_fresh(now: u64, timestamp: u64, max_age: u64) -> (res: bool)
    ensures
        res == is_fresh(now, timestamp, max_age),
{
    now >= timestamp && (now - timestamp) <= max_age
}

/// Whether `timestamp` is at most `max_age` seconds before the current time.
pub fn validate_timestamp(timestamp: u64, max_age: u64) -> (res: bool)
    ensures
        exists|now: u64| res == is_fresh(now, timestamp, max_age),
{
    let now = current_timestamp();
    timestamp_is_fresh(now, timestamp, max_age)
}

// ---------------------------------------------------------------- hex

/// The lowercase hexadecimal digit of `v < 16`.
pub open spec fn hex_digit(v: int) -> char {
    if v < 10 {
        (48 + v) as char
    } else {
        (87 + v) as char
    }
}

/// Lowercase hexadecimal text of bytes: two digits per byte, high half first.
pub open spec fn hex_lower(b: Seq<u8>) -> Seq<char> {
    Seq::new(
        2 * b.len(),
        |i: int|
            if i % 2 == 0 {
                hex_digit(b[i / 2] as int / 16)
            } else {
                hex_digit(b[i / 2] as int % 16)
            },
    )
}

/// The value of a hexadecimal digit byte of either case.
pub open spec fn hex_value(c: u8) -> Option<int> {
    if 48 <= c <= 57 {
        Some(c - 48)
    } else if 97 <= c <= 102 {
        Some(c - 87)
    } else if 65 <= c <= 70 {
        Some(c - 55)
    } else {
        None
    }
}

/// The bytes that hexadecimal text (given by its bytes) stands for: `None` when its
/// length is odd or a byte is not a hexadecimal digit.
pub open spec fn hex_decoded(s: Seq<u8>) -> Option<Seq<u8>> {
    if s.len() % 2 != 0 {
        None
    } else if forall|i: int| 0 <= i < s.len() ==> #[trigger] hex_value(s[i]) is Some {
        Some(
            Seq::new(
                s.len() / 2,
                |j: int| (hex_value(s[2 * j]).unwrap() * 16 + hex_value(s[2 * j + 1]).unwrap()) as u8,
            ),
        )
    } else {
        None
    }
}

/// `hex::FromHexError`.
#[verifier::external_type_specification]
#[verifier::external_body]
pub struct ExFromHexError(hex::FromHexError);

/// `hex::encode`: lowercase hexadecimal, two digits per byte, as the crate documents.
#[verifier::external_body]
fn hex_encode(data: &[u8]) -> (res: String)
    ensures
        res@ == hex_lower(data@),
{
    hex::encode(data)
}

/// `hex::decode`: accepts an even number of hexadecimal digit bytes of either case
/// and yields one byte per pair, as the crate's source (`FromHex for Vec<u8>`) shows;
/// otherwise an error.
#[verifier::external_body]
fn hex_decode(text: &str) -> (res: Result<Vec<u8>, hex::FromHexError>)
    ensures
        match res {
            Ok(v) => hex_decoded(text.spec_bytes()) == Some(v@),
            Err(_) => hex_decoded(text.spec_bytes()) is None,
        },
{
    hex::decode(text)
}

/// Lowercase hexadecimal text of bytes.
pub fn bytes_to_hex(bytes: &[u8]) -> (res: String)
    ensures
        res@ == hex_lower(bytes@),
{
    hex_encode(bytes)
}

/// The bytes that hexadecimal text stands for; an encoding error when it has an odd
/// number of digits or a character that is not a hexadecimal digit.
pub fn hex_to_bytes(hex: &str) -> (res: ZkpResult<Vec<u8>>)
    ensures
        match res {
            Ok(v) => hex_decoded(hex.spec_bytes()) == Some(v@),
            Err(e) => hex_decoded(hex.spec_bytes()) is None && e@ is EncodingError,
        },
{
    match hex_decode(hex) {
        Ok(v) => Ok(v),
        Err(e) => Err(ZkpError::EncodingError(e.to_string())),
    }
}

// ---------------------------------------------------------------- sha256

/// The SHA-256 digest of bytes.
pub uninterp spec fn sha256_digest(data: Seq<u8>) -> Seq<u8>;

/// `sha2::Sha256::digest`: the digest is named; the crate's output size is 32 bytes.
#[verifier::external_body]
fn sha256_bytes(data: &[u8]) -> (res: Vec<u8>)
    ensures
        res@ == sha256_digest(data@),
        res@.len() == 32,
{
    sha2::Sha256::digest(data).to_vec()
}

/// The SHA-256 digest of `data` as lowercase hexadecimal text (64 characters).
pub fn sha256_hash(data: &[u8]) -> (res: String)
    ensures
        res@ == hex_lower(sha256_digest(data@)),
        res@.len() == 64,
{
    let digest = sha256_bytes(data);
    bytes_to_hex(digest.as_slice())
}

// ---------------------------------------------------------------- base64

/// The standard, padded base64 text of bytes.
pub uninterp spec fn base64_text(data: Seq<u8>) -> Seq<char>;

/// The bytes that standard, padded base64 text stands for, if it is canonical base64.
pub uninterp spec fn base64_decoded(text: Seq<char>) -> Option<Seq<u8>>;

/// `base64::DecodeError`.
#[verifier::external_type_specification]
#[verifier::external_body]
pub struct ExDecodeError(base64::DecodeError);

/// `base64::engine::general_purpose::STANDARD.encode`: the text is named; its length
/// is `encoded_len` with padding, four characters per started group of three bytes;
/// the standard alphabet and the padding are ASCII, and decoding with the same engine
/// gives back the bytes (the crate's round trip). Its one panic, an overflow of that
/// length, cannot happen for a slice, which holds at most `isize::MAX` bytes.
#[verifier::external_body]
fn base64_encode_std(data: &[u8]) -> (res: String)
    ensures
        res@ == base64_text(data@),
        res@.len() == 4 * ((data@.len() + 2) / 3),
        is_ascii_chars(res@),
        base64_decoded(res@) == Some(data@),
{
    base64::engine::general_purpose::STANDARD.encode(data)
}

/// `base64::engine::general_purpose::STANDARD.decode`: the outcome is named.
#[verifier::external_body]
fn base64_decode_std(encoded: &str) -> (res: Result<Vec<u8>, base64::DecodeError>)
    ensures
        match res {
            Ok(v) => base64_decoded(encoded@) == Some(v@),
            Err(_) => base64_decoded(encoded@) is None,
        },
{
    base64::engine::general_purpose::STANDARD.decode(encoded)
}

/// Standard, padded base64 text of bytes: four characters per started group of three
/// bytes.
pub fn base64_encode(data: &[u8]) -> (res: String)
    ensures
        res@ == base64_text(data@),
        res@.len() == 4 * ((data@.len() + 2) / 3),
        is_ascii_chars(res@),
        base64_decoded(res@) == Some(data@),
{
    base64_encode_std(data)
}

/// The bytes that base64 text stands for; an encoding error when it is not canonical
/// standard base64.
pub fn base64_decode(encoded: &str) -> (res: ZkpResult<Vec<u8>>)
    ensures
        match res {
            Ok(v) => base64_decoded(encoded@) == Some(v@),
            Err(e) => base64_decoded(encoded@) is None && e@ is EncodingError,
        },
{
    match base64_decode_std(encoded) {
        Ok(v) => Ok(v),
        Err(e) => Err(ZkpError::EncodingError(e.to_string())),
    }
}

// ---------------------------------------------------------------- nonce

/// 32 bytes from `rand::thread_rng()`; only their number is stated.
#[verifier::external_body]
fn random_bytes_32() -> (res: Vec<u8>)
    ensures
        res@.len() == 32,
{
    let bytes: [u8; 32] = rand::thread_rng().gen();
    bytes.to_vec()
}

/// A random nonce for replay protection: the lowercase hexadecimal text of 32 random
/// bytes.
pub fn generate_nonce() -> (res: String)
    ensures
        exists|b: Seq<u8>| b.len() == 32 && res@ == hex_lower(b),
        res@.len() == 64,
{
    let bytes = random_bytes_32();
    bytes_to_hex(bytes.as_slice())
}

// ---------------------------------------------------------------- JSON

/// Parses JSON text into a `serde_json::Value`; a serialization error when the text is
/// not a JSON document.
pub fn safe_json_parse(json: &str) -> (res: ZkpResult<serde_json::Value>)
    ensures
        res is Ok <==> json_bytes_valid(json.spec_bytes()),
        res matches Err(e) ==> e@ is SerializationError,
{
    match parse_json(json.as_bytes()) {
        Ok(v) => Ok(v),
        Err(e) => Err(ZkpError::SerializationError(e)),
    }
}

} // verus!

verus! {

/// A hexadecimal digit's byte is read back as its value.
proof fn lemma_hex_digit_value(v: int)
    requires
        0 <= v < 16,
    ensures
        '\0' <= hex_digit(v) <= '\u{7f}',
        hex_value(hex_digit(v) as u8) == Some(v),
{
}

/// Hexadecimal text is ASCII.
proof fn lemma_hex_lower_ascii(b: Seq<u8>)
    ensures
        is_ascii_chars(hex_lower(b)),
{
    assert forall|i: int| 0 <= i < hex_lower(b).len() implies '\0' <= #[trigger] hex_lower(b)[i] <= '\u{7f}' by {
        lemma_hex_digit_value(b[i / 2] as int / 16);
        lemma_hex_digit_value(b[i / 2] as int % 16);
    }
}

/// Decoding the lowercase hexadecimal text of bytes gives back the bytes.
pub proof fn law_hex_round_trip(b: Seq<u8>)
    ensures
        hex_decoded(encode_utf8(hex_lower(b))) == Some(b),
{
    let h = hex_lower(b);
    lemma_hex_lower_ascii(b);
    is_ascii_chars_encode_utf8(h);
    let e = encode_utf8(h);
    assert forall|i: int| 0 <= i < e.len() implies #[trigger] hex_value(e[i]) is Some
        && hex_value(e[i]) == Some(if i % 2 == 0 { b[i / 2] as int / 16 } else { b[i / 2] as int % 16 }) by {
        assert(h[i] as u8 == e[i]);
        lemma_hex_digit_value(b[i / 2] as int / 16);
        lemma_hex_digit_value(b[i / 2] as int % 16);
    }
    let d = hex_decoded(e).unwrap();
    assert forall|j: int| 0 <= j < b.len() implies #[trigger] d[j] == b[j] by {
        assert(hex_value(e[2 * j]) == Some(b[j] as int / 16));
        assert(hex_value(e[2 * j + 1]) == Some(b[j] as int % 16));
    }
    assert(d =~= b);
}

/// A proof made at the current time is fresh for every age limit, and a fresh proof was
/// not made after the current time.
pub proof fn law_freshness(now: u64, timestamp: u64, max_age: u64)
    ensures
        is_fresh(now, now, max_age),
        is_fresh(now, timestamp, max_age) ==> timestamp <= now,
{
}

} // verus!
