//! The hash functions that swaps use: BLAKE2b for key derivation and
//! domain separators, Poseidon over `Fq` for asset identifiers.

use vstd::prelude::*;
use crate::field::is_fq_encoding;

verus! {

/// The BLAKE2b digest of `data` with output length `length` and
/// personalization `personal` (zero-padded to 16 bytes).
pub uninterp spec fn blake2b_digest(personal: Seq<u8>, length: nat, data: Seq<u8>) -> Seq<u8>;

/// The Poseidon hash (rate 1) of one field element under a domain separator.
pub uninterp spec fn poseidon_hash_1(domain: Seq<u8>, a: Seq<u8>) -> Seq<u8>;

/// The Poseidon hash (rate 4) of four field elements under a domain separator.
pub uninterp spec fn poseidon_hash_4(
    domain: Seq<u8>,
    a: Seq<u8>,
    b: Seq<u8>,
    c: Seq<u8>,
    d: Seq<u8>,
) -> Seq<u8>;

/// The Poseidon hash (rate 6) of six field elements under a domain separator.
pub uninterp spec fn poseidon_hash_6(
    domain: Seq<u8>,
    a: Seq<u8>,
    b: Seq<u8>,
    c: Seq<u8>,
    d: Seq<u8>,
    e: Seq<u8>,
    f: Seq<u8>,
) -> Seq<u8>;

/// BLAKE2b of `data`.
///
/// Calls `blake2b_simd::Params::hash` with the given output length and
/// personalization. The source panics on a personalization longer than 16
/// bytes and on a length outside `1..=64`; the contract excludes those,
/// names the digest, and states that it has `length` bytes.
#[verifier::external_body]
pub(crate) fn blake2b(personal: &[u8], length: usize, data: &[u8]) -> (h: Vec<u8>)
    requires
        personal@.len() <= 16,
        1 <= length <= 64,
    ensures
        h@ == blake2b_digest(personal@, length as nat, data@),
        h@.len() == length,
{
    blake2b_simd::Params::new().hash_length(length).personal(personal).hash(data).as_bytes().to_vec()
}

/// `poseidon377::hash_1` on canonical field elements.
///
/// The arguments are read with `decaf377::Fq::from_bytes_checked` (which
/// cannot fail on canonical encodings) and the result written with
/// `Fq::to_bytes`, which writes a canonical encoding. The contract names the
/// hash and states that canonicity.
#[verifier::external_body]
pub(crate) fn hash_1(domain: &[u8; 32], a: &[u8; 32]) -> (h: [u8; 32])
    requires
        is_fq_encoding(domain@),
        is_fq_encoding(a@),
    ensures
        h@ == poseidon_hash_1(domain@, a@),
        is_fq_encoding(h@),
{
    let domain = decaf377::Fq::from_bytes_checked(domain).expect("canonical");
    let a = decaf377::Fq::from_bytes_checked(a).expect("canonical");
    poseidon377::hash_1(&domain, a).to_bytes()
}

/// `poseidon377::hash_4` on canonical field elements.
///
/// The arguments are read with `decaf377::Fq::from_bytes_checked` (which
/// cannot fail on canonical encodings) and the result written with
/// `Fq::to_bytes`, which writes a canonical encoding. The contract names the
/// hash and states that canonicity.
#[verifier::external_body]
pub(crate) fn hash_4(
    domain: &[u8; 32],
    a: &[u8; 32],
    b: &[u8; 32],
    c: &[u8; 32],
    d: &[u8; 32],
) -> (h: [u8; 32])
    requires
        is_fq_encoding(domain@),
        is_fq_encoding(a@),
        is_fq_encoding(b@),
        is_fq_encoding(c@),
        is_fq_encoding(d@),
    ensures
        h@ == poseidon_hash_4(domain@, a@, b@, c@, d@),
        is_fq_encoding(h@),
{
    let domain = decaf377::Fq::from_bytes_checked(domain).expect("canonical");
    let a = decaf377::Fq::from_bytes_checked(a).expect("canonical");
    let b = decaf377::Fq::from_bytes_checked(b).expect("canonical");
    let c = decaf377::Fq::from_bytes_checked(c).expect("canonical");
    let d = decaf377::Fq::from_bytes_checked(d).expect("canonical");
    poseidon377::hash_4(&domain, (a, b, c, d)).to_bytes()
}

/// `poseidon377::hash_6` on canonical field elements.
///
/// The arguments are read with `decaf377::Fq::from_bytes_checked` (which
/// cannot fail on canonical encodings) and the result written with
/// `Fq::to_bytes`, which writes a canonical encoding. The contract names the
/// hash and states that canonicity.
#[verifier::external_body]
pub(crate) fn hash_6(
    domain: &[u8; 32],
    a: &[u8; 32],
    b: &[u8; 32],
    c: &[u8; 32],
    d: &[u8; 32],
    e: &[u8; 32],
    g: &[u8; 32],
) -> (h: [u8; 32])
    requires
        is_fq_encoding(domain@),
        is_fq_encoding(a@),
        is_fq_encoding(b@),
        is_fq_encoding(c@),
        is_fq_encoding(d@),
        is_fq_encoding(e@),
        is_fq_encoding(g@),
    ensures
        h@ == poseidon_hash_6(domain@, a@, b@, c@, d@, e@, g@),
        is_fq_encoding(h@),
{
    let domain = decaf377::Fq::from_bytes_checked(domain).expect("canonical");
    let a = decaf377::Fq::from_bytes_checked(a).expect("canonical");
    let b = decaf377::Fq::from_bytes_checked(b).expect("canonical");
    let c = decaf377::Fq::from_bytes_checked(c).expect("canonical");
    let d = decaf377::Fq::from_bytes_checked(d).expect("canonical");
    let e = decaf377::Fq::from_bytes_checked(e).expect("canonical");
    let g = decaf377::Fq::from_bytes_checked(g).expect("canonical");
    poseidon377::hash_6(&domain, (a, b, c, d, e, g)).to_bytes()
}

} // verus!
