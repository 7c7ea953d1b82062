//! Key-agreement keys and payment addresses.

use vstd::prelude::*;
use crate::bytes::{copy_into, read_array};
use crate::field::{fq_bytes_are_canonical, fq_from_le_bytes_mod_order, fq_reduce, is_fq_encoding, lemma_fq_reduce_canonical};
use crate::group::{diversified_public_key, encode_to_curve_encoding, key_agreement, shared_secret, Element};
use crate::hash::{blake2b, blake2b_digest};

verus! {

/// A public key of the key agreement: 32 bytes that may or may not encode a
/// group element. Those that do not are refused by key agreement.
#[derive(Clone, Copy, Debug, PartialEq, Eq)]
pub struct Public(pub [u8; 32]);

/// A secret scalar of the key agreement, read little-endian modulo the
/// group order.
#[derive(Clone, Copy, Debug, PartialEq, Eq)]
pub struct Secret(pub [u8; 32]);

/// The secret that both sides of a key agreement derive.
#[derive(Clone, Copy, Debug, PartialEq, Eq)]
pub struct SharedSecret(pub [u8; 32]);

impl Secret {
    /// The public key of this secret with respect to `diversified_generator`.
    pub fn diversified_public(&self, diversified_generator: &Element) -> (pk: Public)
        ensures
            pk.0@ == diversified_public_key(self.0@, diversified_generator.spec_encoding()),
            crate::group::decaf377_decodes(pk.0@),
            is_fq_encoding(pk.0@),
    {
        Public(diversified_generator.diversified_public(&self.0))
    }

    /// Key agreement with `other`; fails when `other` is not a group element.
    pub fn key_agreement_with(&self, other: &Public) -> (ss: Option<SharedSecret>)
        ensures
            ss is Some <==> crate::group::decaf377_decodes(other.0@),
            ss matches Some(s) ==> s.0@ == shared_secret(self.0@, other.0@),
    {
        match key_agreement(&self.0, &other.0) {
            Some(s) => Some(SharedSecret(s)),
            None => None,
        }
    }
}

/// A diversifier: it selects one of the many addresses of a key.
#[derive(Clone, Copy, Debug, PartialEq, Eq)]
pub struct Diversifier(pub [u8; 16]);

/// The personalization of the diversifier hash, "Penumbra_Divrsfy".
pub open spec fn diversifier_personalization() -> Seq<u8> {
    seq![
        0x50u8, 0x65, 0x6e, 0x75, 0x6d, 0x62, 0x72, 0x61,
        0x5f, 0x44, 0x69, 0x76, 0x72, 0x73, 0x66, 0x79,
    ]
}

/// The encoding of the generator that the diversifier `d` selects: the
/// personalized 64-byte BLAKE2b digest of `d`, reduced into `Fq` and mapped
/// to the curve.
pub open spec fn spec_diversified_generator(d: Seq<u8>) -> Seq<u8> {
    encode_to_curve_encoding(fq_reduce(blake2b_digest(diversifier_personalization(), 64, d)))
}

impl Diversifier {
    /// The generator that this diversifier selects.
    pub fn diversified_generator(&self) -> (g: Element)
        ensures
            g.spec_encoding() == spec_diversified_generator(self.0@),
    {
        // "Penumbra_Divrsfy"
        let personal: [u8; 16] = [
            0x50, 0x65, 0x6e, 0x75, 0x6d, 0x62, 0x72, 0x61,
            0x5f, 0x44, 0x69, 0x76, 0x72, 0x73, 0x66, 0x79,
        ];
        assert(personal@ =~= diversifier_personalization());
        let hash = blake2b(&personal, 64, &self.0);
        let r = fq_from_le_bytes_mod_order(hash.as_slice());
        proof {
            lemma_fq_reduce_canonical(hash@);
        }
        Element::encode_to_curve(&r)
    }
}

/// A clue key, with which detection clues for an address are made.
#[derive(Clone, Copy, Debug, PartialEq, Eq)]
pub struct ClueKey(pub [u8; 32]);

/// A payment address: a diversifier, a transmission key and a clue key.
#[derive(Clone, Copy, Debug, PartialEq, Eq)]
pub struct Address {
    pub diversifier: Diversifier,
    pub transmission_key: Public,
    pub clue_key: ClueKey,
}

impl Address {
    /// The transmission key encodes a field element, as every address's does.
    pub open spec fn wf(&self) -> bool {
        is_fq_encoding(self.transmission_key.0@)
    }

    /// The 80-byte form: diversifier, transmission key, clue key.
    pub open spec fn spec_bytes(&self) -> Seq<u8> {
        self.diversifier.0@ + self.transmission_key.0@ + self.clue_key.0@
    }

    /// The address with the given parts, if the transmission key encodes a
    /// field element.
    pub fn from_components(d: Diversifier, pk_d: Public, ck_d: ClueKey) -> (a: Option<Address>)
        ensures
            a is Some <==> is_fq_encoding(pk_d.0@),
            a matches Some(a) ==> a.diversifier == d && a.transmission_key == pk_d && a.clue_key
                == ck_d,
    {
        if fq_bytes_are_canonical(&pk_d.0) {
            Some(Address { diversifier: d, transmission_key: pk_d, clue_key: ck_d })
        } else {
            None
        }
    }

    /// The diversifier of the address.
    pub fn diversifier(&self) -> (d: &Diversifier)
        ensures
            *d == self.diversifier,
    {
        &self.diversifier
    }

    /// The transmission key of the address.
    pub fn transmission_key(&self) -> (pk: &Public)
        ensures
            *pk == self.transmission_key,
    {
        &self.transmission_key
    }

    /// The clue key of the address.
    pub fn clue_key(&self) -> (ck: &ClueKey)
        ensures
            *ck == self.clue_key,
    {
        &self.clue_key
    }

    /// The transmission key as a field element.
    pub fn transmission_key_s(&self) -> (s: [u8; 32])
        requires
            self.wf(),
        ensures
            s@ == self.transmission_key.0@,
            is_fq_encoding(s@),
    {
        self.transmission_key.0
    }

    /// The generator that the address's diversifier selects.
    pub fn diversified_generator(&self) -> (g: Element)
        ensures
            g.spec_encoding() == spec_diversified_generator(self.diversifier.0@),
    {
        self.diversifier.diversified_generator()
    }

    /// The 80-byte form of the address.
    pub fn to_bytes(&self) -> (r: [u8; 80])
        ensures
            r@ == self.spec_bytes(),
    {
        let mut out = [0u8; 80];
        copy_into(&mut out, 0, &self.diversifier.0);
        copy_into(&mut out, 16, &self.transmission_key.0);
        copy_into(&mut out, 48, &self.clue_key.0);
        assert(out@ =~= self.spec_bytes());
        out
    }

    /// The address that `bytes` hold, if its transmission key encodes a
    /// field element.
    pub fn from_bytes(bytes: &[u8; 80]) -> (a: Option<Address>)
        ensures
            a is Some <==> is_fq_encoding(bytes@.subrange(16, 48)),
            a matches Some(a) ==> a.spec_bytes() == bytes@ && a.wf(),
    {
        let d: [u8; 16] = read_array(bytes, 0);
        let pk_d: [u8; 32] = read_array(bytes, 16);
        let ck_d: [u8; 32] = read_array(bytes, 48);
        let a = Address::from_components(Diversifier(d), Public(pk_d), ClueKey(ck_d));
        proof {
            if let Some(a) = a {
                assert(a.spec_bytes() =~= bytes@);
            }
        }
        a
    }
}

} // verus!
