//! Digest and rendering helpers that lean on outside crates.
//!
//! The digest functions are trusted wrappers: their results are named,
//! uninterpreted functions of the input bytes, since spelling the algorithms
//! out here would state nothing checkable. Hex encoding and the hyphenated
//! uuid rendering are fully specified.

use vstd::prelude::*;

use sha1::Digest;

verus! {

/// The character standing for one hexadecimal digit, lower case.
pub open spec fn hex_char(d: nat) -> char {
    if d == 0 {
        '0'
    } else if d == 1 {
        '1'
    } else if d == 2 {
        '2'
    } else if d == 3 {
        '3'
    } else if d == 4 {
        '4'
    } else if d == 5 {
        '5'
    } else if d == 6 {
        '6'
    } else if d == 7 {
        '7'
    } else if d == 8 {
        '8'
    } else if d == 9 {
        '9'
    } else if d == 10 {
        'a'
    } else if d == 11 {
        'b'
    } else if d == 12 {
        'c'
    } else if d == 13 {
        'd'
    } else if d == 14 {
        'e'
    } else {
        'f'
    }
}

/// Lower-case hex rendering of a byte string, two digits per byte, high
/// nibble first.
pub open spec fn spec_hex_lower(data: Seq<u8>) -> Seq<char>
    decreases data.len(),
{
    if data.len() == 0 {
        Seq::empty()
    } else {
        seq![
            hex_char((data.first() >> 4) as nat),
            hex_char((data.first() & 0x0f) as nat),
        ] + spec_hex_lower(data.drop_first())
    }
}

/// Relies on hex::encode: lower-case hex, two digits per byte, high nibble
/// first.
#[verifier::external_body]
pub fn hex_encode(data: &[u8]) -> (r: String)
    ensures
        r@ == spec_hex_lower(data@),
{
    hex::encode(data)
}

/// The MD5 digest (16 bytes) of a byte string; a function of the bytes alone.
pub uninterp spec fn md5_of(data: Seq<u8>) -> Seq<u8>;

/// The SHA-1 digest (20 bytes) of a byte string; a function of the bytes
/// alone.
pub uninterp spec fn sha1_of(data: Seq<u8>) -> Seq<u8>;

/// The SHA-256 digest (32 bytes) of a byte string; a function of the bytes
/// alone.
pub uninterp spec fn sha256_of(data: Seq<u8>) -> Seq<u8>;

/// The SHA-512 digest (64 bytes) of a byte string; a function of the bytes
/// alone.
pub uninterp spec fn sha512_of(data: Seq<u8>) -> Seq<u8>;

/// Relies on md5::compute: the 128-bit MD5 digest of the input.
#[verifier::external_body]
fn md5_bytes(data: &[u8]) -> (r: Vec<u8>)
    ensures
        r@ == md5_of(data@),
        r@.len() == 16,
{
    md5::compute(data).0.to_vec()
}

/// Relies on sha1::Sha1 (Digest::digest): the 160-bit SHA-1 digest of the
/// input.
#[verifier::external_body]
fn sha1_bytes(data: &[u8]) -> (r: Vec<u8>)
    ensures
        r@ == sha1_of(data@),
        r@.len() == 20,
{
    sha1::Sha1::digest(data).to_vec()
}

/// Relies on sha2::Sha256 (Digest::digest): the 256-bit SHA-256 digest of the
/// input.
#[verifier::external_body]
fn sha256_bytes(data: &[u8]) -> (r: Vec<u8>)
    ensures
        r@ == sha256_of(data@),
        r@.len() == 32,
{
    sha2::Sha256::digest(data).to_vec()
}

/// Relies on sha2::Sha512 (Digest::digest): the 512-bit SHA-512 digest of the
/// input.
#[verifier::external_body]
fn sha512_bytes(data: &[u8]) -> (r: Vec<u8>)
    ensures
        r@ == sha512_of(data@),
        r@.len() == 64,
{
    sha2::Sha512::digest(data).to_vec()
}

/// Hex-encoded MD5 digest.
pub fn md5_hex(data: &[u8]) -> (r: String)
    ensures
        r@ == spec_hex_lower(md5_of(data@)),
{
    let d = md5_bytes(data);
    hex_encode(d.as_slice())
}

/// Hex-encoded SHA-1 digest.
pub fn sha1_hex(data: &[u8]) -> (r: String)
    ensures
        r@ == spec_hex_lower(sha1_of(data@)),
{
    let d = sha1_bytes(data);
    hex_encode(d.as_slice())
}

/// Hex-encoded SHA-256 digest.
pub fn sha256_hex(data: &[u8]) -> (r: String)
    ensures
        r@ == spec_hex_lower(sha256_of(data@)),
{
    let d = sha256_bytes(data);
    hex_encode(d.as_slice())
}

/// Hex-encoded SHA-512 digest.
pub fn sha512_hex(data: &[u8]) -> (r: String)
    ensures
        r@ == spec_hex_lower(sha512_of(data@)),
{
    let d = sha512_bytes(data);
    hex_encode(d.as_slice())
}

/// The sixteen big-endian bytes of a 128-bit value.
pub open spec fn spec_u128_be_bytes(x: u128) -> Seq<u8> {
    seq![
        (x >> 120) as u8,
        (x >> 112) as u8,
        (x >> 104) as u8,
        (x >> 96) as u8,
        (x >> 88) as u8,
        (x >> 80) as u8,
        (x >> 72) as u8,
        (x >> 64) as u8,
        (x >> 56) as u8,
        (x >> 48) as u8,
        (x >> 40) as u8,
        (x >> 32) as u8,
        (x >> 24) as u8,
        (x >> 16) as u8,
        (x >> 8) as u8,
        x as u8,
    ]
}

/// The hyphenated textual form of a 128-bit uuid: lower-case hex of the
/// big-endian bytes, in groups of four, two, two, two and six bytes.
pub open spec fn spec_uuid_hyphenated(x: u128) -> Seq<char> {
    let b = spec_u128_be_bytes(x);
    spec_hex_lower(b.subrange(0, 4)) + "-"@ + spec_hex_lower(b.subrange(4, 6)) + "-"@
        + spec_hex_lower(b.subrange(6, 8)) + "-"@ + spec_hex_lower(b.subrange(8, 10)) + "-"@
        + spec_hex_lower(b.subrange(10, 16))
}

/// Relies on uuid::Uuid::from_u128 (big-endian bytes) and its hyphenated
/// formatting: lower-case hex in five hyphen-separated groups.
#[verifier::external_body]
pub fn uuid_hyphenated(x: u128) -> (r: String)
    ensures
        r@ == spec_uuid_hyphenated(x),
{
    uuid::Uuid::from_u128(x).as_hyphenated().to_string()
}

} // verus!
