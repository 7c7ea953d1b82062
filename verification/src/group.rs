//! Elements of the decaf377 group, held as their canonical 32-byte
//! encodings, and the group operations that key agreement uses.

use vstd::prelude::*;
use crate::field::is_fq_encoding;

verus! {

/// Whether `encoding` decodes to a group element
/// (`decaf377::Encoding::vartime_decompress` succeeds on it).
pub uninterp spec fn decaf377_decodes(encoding: Seq<u8>) -> bool;

/// The encoding of the element that `decaf377::Element::encode_to_curve`
/// maps the field element encoded by `r` to.
pub uninterp spec fn encode_to_curve_encoding(r: Seq<u8>) -> Seq<u8>;

/// The encoding of `[secret] basepoint`, as
/// `decaf377_ka::Secret::diversified_public` computes it, for the scalar
/// `secret` (read little-endian modulo the group order) and the element
/// encoded by `basepoint`.
pub uninterp spec fn diversified_public_key(secret: Seq<u8>, basepoint: Seq<u8>) -> Seq<u8>;

/// The shared secret that `decaf377_ka::Secret::key_agreement_with` derives
/// from the scalar `secret` and the public key `public`, when `public`
/// decodes.
pub uninterp spec fn shared_secret(secret: Seq<u8>, public: Seq<u8>) -> Seq<u8>;

/// The encoding of the sum of the elements encoded by `a` and `b`.
pub uninterp spec fn decaf377_sum(a: Seq<u8>, b: Seq<u8>) -> Seq<u8>;

/// The encoding of the negation of the element encoded by `a`.
pub uninterp spec fn decaf377_negation(a: Seq<u8>) -> Seq<u8>;

/// The encoding of `[n] a` for the element encoded by `a`.
pub uninterp spec fn decaf377_multiple(n: u64, a: Seq<u8>) -> Seq<u8>;

/// The encoding of the identity element: 32 zero bytes.
pub open spec fn identity_encoding() -> Seq<u8> {
    Seq::new(32, |i: int| 0u8)
}

/// Whether `bytes` encode a group element.
///
/// Calls `decaf377::Encoding::vartime_decompress`; the contract names its
/// success, and states that it succeeds only on the canonical encoding of a
/// field element, which its source checks first.
#[verifier::external_body]
pub(crate) fn encoding_decodes(bytes: &[u8; 32]) -> (ok: bool)
    ensures
        ok == decaf377_decodes(bytes@),
        ok ==> is_fq_encoding(bytes@),
{
    decaf377::Encoding(*bytes).vartime_decompress().is_ok()
}

/// The encoding of the element that the field element `r` maps to.
///
/// Calls `decaf377::Element::encode_to_curve` (after
/// `Fq::from_bytes_checked`, which cannot fail on a canonical `r`) and
/// `Element::vartime_compress`. The contract names the result, and states
/// that it decodes and is a field element: `vartime_compress` writes the
/// canonical encoding of an element (a reduced, nonnegative field element),
/// which `vartime_decompress` accepts.
#[verifier::external_body]
pub(crate) fn encode_to_curve(r: &[u8; 32]) -> (e: [u8; 32])
    requires
        is_fq_encoding(r@),
    ensures
        e@ == encode_to_curve_encoding(r@),
        decaf377_decodes(e@),
        is_fq_encoding(e@),
{
    let r = decaf377::Fq::from_bytes_checked(r).expect("canonical field element");
    decaf377::Element::encode_to_curve(&r).vartime_compress().0
}

/// The public key of `secret` with respect to the element `basepoint`.
///
/// Calls `decaf377_ka::Secret::diversified_public` (after decoding
/// `basepoint`, which cannot fail on an encoding that decodes, and reading
/// the scalar with `decaf377::Fr::from_le_bytes_mod_order`). The contract
/// names the result, and states that it decodes and is a field element: the
/// key is written by `vartime_compress`, which writes the canonical
/// encoding of an element.
#[verifier::external_body]
pub(crate) fn diversified_public(secret: &[u8; 32], basepoint: &[u8; 32]) -> (pk: [u8; 32])
    requires
        decaf377_decodes(basepoint@),
    ensures
        pk@ == diversified_public_key(secret@, basepoint@),
        decaf377_decodes(pk@),
        is_fq_encoding(pk@),
{
    let g = decaf377::Encoding(*basepoint).vartime_decompress().expect("valid encoding");
    let sk = decaf377_ka::Secret::new_from_field(decaf377::Fr::from_le_bytes_mod_order(secret));
    sk.diversified_public(&g).0
}

/// Key agreement between `secret` and the public key `public`.
///
/// Calls `decaf377_ka::Secret::key_agreement_with` (the scalar read with
/// `decaf377::Fr::from_le_bytes_mod_order`). Its source fails exactly when
/// `public` does not decode; the contract states that, and names the
/// shared secret otherwise.
#[verifier::external_body]
pub(crate) fn key_agreement(secret: &[u8; 32], public: &[u8; 32]) -> (ss: Option<[u8; 32]>)
    ensures
        ss is Some <==> decaf377_decodes(public@),
        ss matches Some(s) ==> s@ == shared_secret(secret@, public@),
{
    let sk = decaf377_ka::Secret::new_from_field(decaf377::Fr::from_le_bytes_mod_order(secret));
    match sk.key_agreement_with(&decaf377_ka::Public(*public)) {
        Ok(s) => Some(s.0),
        Err(_) => None,
    }
}

/// The sum of two elements.
///
/// Calls `Add` of `decaf377::Element` (after decoding both, which cannot
/// fail on encodings that decode) and `Element::vartime_compress`. The
/// contract names the sum and states that its encoding decodes and is a
/// field element, as every compressed element's is. It also states that
/// adding the identity (whose encoding is all zeros) gives the other
/// element back: the group law, and the compression of an element that
/// was decoded gives back its canonical encoding.
#[verifier::external_body]
pub(crate) fn group_add(a: &[u8; 32], b: &[u8; 32]) -> (s: [u8; 32])
    requires
        decaf377_decodes(a@),
        decaf377_decodes(b@),
    ensures
        s@ == decaf377_sum(a@, b@),
        decaf377_decodes(s@),
        is_fq_encoding(s@),
        b@ == identity_encoding() ==> s@ == a@,
        a@ == identity_encoding() ==> s@ == b@,
{
    let a = decaf377::Encoding(*a).vartime_decompress().expect("valid encoding");
    let b = decaf377::Encoding(*b).vartime_decompress().expect("valid encoding");
    (a + b).vartime_compress().0
}

/// The negation of an element.
///
/// Calls `Neg` of `decaf377::Element` (after decoding, which cannot fail on
/// an encoding that decodes) and `Element::vartime_compress`. The contract
/// names the negation and states that its encoding decodes and is a field
/// element, and that the negation of the identity is the identity.
#[verifier::external_body]
pub(crate) fn group_negate(a: &[u8; 32]) -> (n: [u8; 32])
    requires
        decaf377_decodes(a@),
    ensures
        n@ == decaf377_negation(a@),
        decaf377_decodes(n@),
        is_fq_encoding(n@),
        a@ == identity_encoding() ==> n@ == identity_encoding(),
{
    let a = decaf377::Encoding(*a).vartime_decompress().expect("valid encoding");
    (-a).vartime_compress().0
}

/// The multiple `[n] a` of an element.
///
/// Calls `Mul<Element>` of `decaf377::Fr` on `Fr::from(n)` (after decoding
/// `a`, which cannot fail on an encoding that decodes) and
/// `Element::vartime_compress`. The contract names the multiple and states
/// that its encoding decodes and is a field element, and that the zero
/// multiple is the identity, whose encoding is all zeros.
#[verifier::external_body]
pub(crate) fn group_mul_u64(n: u64, a: &[u8; 32]) -> (m: [u8; 32])
    requires
        decaf377_decodes(a@),
    ensures
        m@ == decaf377_multiple(n, a@),
        decaf377_decodes(m@),
        is_fq_encoding(m@),
        n == 0 ==> m@ == identity_encoding(),
{
    let a = decaf377::Encoding(*a).vartime_decompress().expect("valid encoding");
    (decaf377::Fr::from(n) * a).vartime_compress().0
}

/// An element of the decaf377 group, held as its encoding.
#[derive(Clone, Copy, Debug, PartialEq, Eq)]
pub struct Element {
    encoding: [u8; 32],
}

impl Element {
    #[verifier::type_invariant]
    spec fn decodes(self) -> bool {
        decaf377_decodes(self.encoding@) && is_fq_encoding(self.encoding@)
    }

    /// The encoding of the element.
    pub closed spec fn spec_encoding(self) -> Seq<u8> {
        self.encoding@
    }

    /// An element is determined by its encoding.
    pub proof fn lemma_encoding_determines(a: Element, b: Element)
        requires
            a.spec_encoding() == b.spec_encoding(),
        ensures
            a == b,
    {
        assert(a.encoding =~= b.encoding);
    }

    /// The element that `bytes` encode, if they encode one.
    pub fn from_encoding(bytes: [u8; 32]) -> (r: Option<Element>)
        ensures
            r is Some <==> decaf377_decodes(bytes@),
            r matches Some(e) ==> e.spec_encoding() == bytes@,
    {
        if encoding_decodes(&bytes) {
            Some(Element { encoding: bytes })
        } else {
            None
        }
    }

    /// The element that the field element `r` maps to.
    pub fn encode_to_curve(r: &[u8; 32]) -> (e: Element)
        requires
            is_fq_encoding(r@),
        ensures
            e.spec_encoding() == encode_to_curve_encoding(r@),
    {
        Element { encoding: encode_to_curve(r) }
    }

    /// The canonical encoding of the element.
    pub fn vartime_compress(&self) -> (r: [u8; 32])
        ensures
            r@ == self.spec_encoding(),
            decaf377_decodes(r@),
            is_fq_encoding(r@),
    {
        proof {
            use_type_invariant(self);
        }
        self.encoding
    }

    /// The field element that the element compresses to. An element's
    /// canonical encoding is that field element written little-endian (its
    /// top three bits, which the encoding clears, are zero since it is
    /// reduced), so this is the encoding read as a field element.
    pub fn vartime_compress_to_field(&self) -> (s: [u8; 32])
        ensures
            s@ == self.spec_encoding(),
            is_fq_encoding(s@),
    {
        proof {
            use_type_invariant(self);
        }
        self.encoding
    }

    /// The sum `self + other`.
    pub fn add(&self, other: &Element) -> (s: Element)
        ensures
            s.spec_encoding() == decaf377_sum(self.spec_encoding(), other.spec_encoding()),
            other.spec_encoding() == identity_encoding() ==> s.spec_encoding()
                == self.spec_encoding(),
            self.spec_encoding() == identity_encoding() ==> s.spec_encoding()
                == other.spec_encoding(),
    {
        proof {
            use_type_invariant(self);
            use_type_invariant(other);
        }
        Element { encoding: group_add(&self.encoding, &other.encoding) }
    }

    /// The negation `-self`.
    pub fn negate(&self) -> (n: Element)
        ensures
            n.spec_encoding() == decaf377_negation(self.spec_encoding()),
            self.spec_encoding() == identity_encoding() ==> n.spec_encoding()
                == identity_encoding(),
    {
        proof {
            use_type_invariant(self);
        }
        Element { encoding: group_negate(&self.encoding) }
    }

    /// The multiple `[n] self`.
    pub fn mul_u64(&self, n: u64) -> (m: Element)
        ensures
            m.spec_encoding() == decaf377_multiple(n, self.spec_encoding()),
            n == 0 ==> m.spec_encoding() == identity_encoding(),
    {
        proof {
            use_type_invariant(self);
        }
        Element { encoding: group_mul_u64(n, &self.encoding) }
    }

    /// The public key `[secret] self`.
    pub fn diversified_public(&self, secret: &[u8; 32]) -> (pk: [u8; 32])
        ensures
            pk@ == diversified_public_key(secret@, self.spec_encoding()),
            decaf377_decodes(pk@),
            is_fq_encoding(pk@),
    {
        proof {
            use_type_invariant(self);
        }
        diversified_public(secret, &self.encoding)
    }
}

} // verus!
