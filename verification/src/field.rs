//! Elements of the decaf377 base field `Fq`, held as their canonical
//! 32-byte little-endian encodings.

use vstd::prelude::*;

verus! {

/// The unsigned integer that `s` encodes, least significant byte first.
pub open spec fn le_nat(s: Seq<u8>) -> nat
    decreases s.len(),
{
    if s.len() == 0 {
        0
    } else {
        s[0] as nat + 256 * le_nat(s.drop_first())
    }
}

/// The order of `Fq` (the scalar field of BLS12-377).
pub open spec fn fq_modulus() -> nat {
    8444461749428370424248824938781546531375899335154063827935233455917409239041nat
}

/// The order of the decaf377 group, the modulus of the scalar field `Fr`.
pub open spec fn fr_modulus() -> nat {
    2111115437357092606062206234695386632838870926408408195193685246394721360383nat
}

/// `s` is the canonical encoding of a scalar: 32 bytes whose little-endian
/// value lies below the group order.
pub open spec fn is_fr_encoding(s: Seq<u8>) -> bool {
    s.len() == 32 && le_nat(s) < fr_modulus()
}

/// The `len` bytes that write `n` least significant first (`n` taken
/// modulo `256^len`).
pub open spec fn nat_to_le(n: nat, len: nat) -> Seq<u8>
    decreases len,
{
    if len == 0 {
        Seq::empty()
    } else {
        seq![(n % 256) as u8] + nat_to_le(n / 256, (len - 1) as nat)
    }
}

/// The canonical encoding of the element `le_value(bytes) mod q`.
pub open spec fn fq_reduce(bytes: Seq<u8>) -> Seq<u8> {
    nat_to_le(le_nat(bytes) % fq_modulus(), 32)
}

/// `s` is the canonical encoding of an element of `Fq`: 32 bytes whose
/// little-endian value lies below the modulus.
pub open spec fn is_fq_encoding(s: Seq<u8>) -> bool {
    s.len() == 32 && le_nat(s) < fq_modulus()
}

/// Whether `bytes` is a canonical field element encoding.
///
/// Calls `decaf377::Fq::from_bytes_checked`, which documents that it refuses
/// exactly the encodings that are not already reduced; the contract states
/// that it accepts exactly the 32-byte strings whose little-endian value is
/// below the modulus.
#[verifier::external_body]
pub(crate) fn fq_bytes_are_canonical(bytes: &[u8; 32]) -> (ok: bool)
    ensures
        ok == is_fq_encoding(bytes@),
{
    decaf377::Fq::from_bytes_checked(bytes).is_ok()
}

/// Whether `bytes` is a canonical scalar encoding.
///
/// Calls `decaf377::Fr::from_bytes_checked`, which documents that it refuses
/// exactly the encodings that are not already reduced; the contract states
/// that it accepts exactly the 32-byte strings whose little-endian value is
/// below the group order.
#[verifier::external_body]
pub(crate) fn fr_bytes_are_canonical(bytes: &[u8; 32]) -> (ok: bool)
    ensures
        ok == is_fr_encoding(bytes@),
{
    decaf377::Fr::from_bytes_checked(bytes).is_ok()
}

/// The field element `le_value(bytes) mod q`, in its canonical encoding.
///
/// Calls `decaf377::Fq::from_le_bytes_mod_order`, then `Fq::to_bytes`; the
/// contract states the reduction that the first documents and that the
/// second writes the reduced value little-endian.
#[verifier::external_body]
pub(crate) fn fq_from_le_bytes_mod_order(bytes: &[u8]) -> (r: [u8; 32])
    ensures
        r@ == fq_reduce(bytes@),
{
    decaf377::Fq::from_le_bytes_mod_order(bytes).to_bytes()
}

/// The field element with the integer value `v`, in its canonical encoding.
///
/// Calls `From<u64> for decaf377::Fq`, then `Fq::to_bytes`; the contract
/// states that the element's value is `v`.
#[verifier::external_body]
pub(crate) fn fq_from_u64(v: u64) -> (r: [u8; 32])
    ensures
        r@ == nat_to_le(v as nat, 32),
{
    decaf377::Fq::from(v).to_bytes()
}

/// Writing `n` in `len` bytes and reading it back gives `n`, when `n` fits.
pub proof fn lemma_le_nat_of_nat_to_le(n: nat, len: nat)
    requires
        n < pow256(len),
    ensures
        nat_to_le(n, len).len() == len,
        le_nat(nat_to_le(n, len)) == n,
    decreases len,
{
    if len > 0 {
        lemma_le_nat_of_nat_to_le(n / 256, (len - 1) as nat);
        let s = nat_to_le(n, len);
        assert(s.drop_first() =~= nat_to_le(n / 256, (len - 1) as nat));
    }
}

/// Reading `s` and writing the value back in as many bytes gives `s`.
pub proof fn lemma_nat_to_le_of_le_nat(s: Seq<u8>)
    ensures
        nat_to_le(le_nat(s), s.len()) == s,
    decreases s.len(),
{
    if s.len() > 0 {
        let rest = s.drop_first();
        lemma_nat_to_le_of_le_nat(rest);
        let n = le_nat(s);
        let x = le_nat(rest);
        assert(n % 256 == s[0] as nat && n / 256 == x) by (nonlinear_arith)
            requires
                n == s[0] as nat + 256 * x,
                s[0] < 256,
        ;
        assert(nat_to_le(n, s.len()) =~= s);
    }
}

/// `256^k`.
pub open spec fn pow256(k: nat) -> nat
    decreases k,
{
    if k == 0 {
        1
    } else {
        256 * pow256((k - 1) as nat)
    }
}

/// The modulus is below `256^32`, so every reduced value fits in 32 bytes.
pub proof fn lemma_modulus_fits()
    ensures
        fq_modulus() < pow256(32),
{
    reveal_with_fuel(pow256, 33);
}

/// A reduced value, written in 32 bytes, is a canonical encoding of it.
pub proof fn lemma_fq_reduce_canonical(bytes: Seq<u8>)
    ensures
        is_fq_encoding(fq_reduce(bytes)),
        le_nat(fq_reduce(bytes)) == le_nat(bytes) % fq_modulus(),
{
    lemma_modulus_fits();
    lemma_le_nat_of_nat_to_le(le_nat(bytes) % fq_modulus(), 32);
}

/// A 64-bit integer, written in 32 bytes, is a canonical encoding of it.
pub proof fn lemma_u64_canonical(v: u64)
    ensures
        is_fq_encoding(nat_to_le(v as nat, 32)),
        le_nat(nat_to_le(v as nat, 32)) == v,
{
    lemma_modulus_fits();
    lemma_le_nat_of_nat_to_le(v as nat, 32);
}

} // verus!
