//! Commitments to balances: each asset has its own generator, and a value
//! is committed as the amount times its asset's generator.

use vstd::prelude::*;
use crate::asset::{Id, Value};
use crate::field::{fq_from_le_bytes_mod_order, fq_reduce, lemma_fq_reduce_canonical};
use crate::group::{identity_encoding, decaf377_multiple, decaf377_negation, decaf377_sum, encode_to_curve_encoding, Element};
use crate::hash::{blake2b, blake2b_digest, hash_1, poseidon_hash_1};

verus! {

/// The tag "penumbra.value.generator", hashed into the domain separator of
/// value generators.
pub open spec fn value_generator_tag() -> Seq<u8> {
    seq![
        0x70u8, 0x65, 0x6e, 0x75, 0x6d, 0x62, 0x72, 0x61, 0x2e, 0x76, 0x61, 0x6c,
        0x75, 0x65, 0x2e, 0x67, 0x65, 0x6e, 0x65, 0x72, 0x61, 0x74, 0x6f, 0x72,
    ]
}

/// The domain separator of value generators: the 64-byte BLAKE2b digest of
/// the tag, reduced into `Fq`.
pub open spec fn spec_value_generator_domain() -> Seq<u8> {
    fq_reduce(blake2b_digest(Seq::empty(), 64, value_generator_tag()))
}

/// The generator of the asset `asset`: the Poseidon hash of the identifier,
/// mapped to the curve.
pub open spec fn spec_value_generator(asset: Seq<u8>) -> Seq<u8> {
    encode_to_curve_encoding(poseidon_hash_1(spec_value_generator_domain(), asset))
}

/// The domain separator of value generators.
pub fn value_generator_domain() -> (ds: [u8; 32])
    ensures
        ds@ == spec_value_generator_domain(),
        crate::field::is_fq_encoding(ds@),
{
    // "penumbra.value.generator"
    let tag: [u8; 24] = [
        0x70, 0x65, 0x6e, 0x75, 0x6d, 0x62, 0x72, 0x61, 0x2e, 0x76, 0x61, 0x6c,
        0x75, 0x65, 0x2e, 0x67, 0x65, 0x6e, 0x65, 0x72, 0x61, 0x74, 0x6f, 0x72,
    ];
    assert(tag@ =~= value_generator_tag());
    let personal: [u8; 0] = [];
    assert(personal@ =~= Seq::<u8>::empty());
    let hash = blake2b(&personal, 64, &tag);
    proof {
        lemma_fq_reduce_canonical(hash@);
    }
    fq_from_le_bytes_mod_order(hash.as_slice())
}

impl Id {
    /// The generator that amounts of this asset are committed with.
    pub fn value_generator(&self) -> (g: Element)
        requires
            self.wf(),
        ensures
            g.spec_encoding() == spec_value_generator(self@),
    {
        let ds = value_generator_domain();
        let h = hash_1(&ds, &self.0);
        Element::encode_to_curve(&h)
    }
}

/// A commitment to a balance.
#[derive(Clone, Copy, Debug, PartialEq, Eq)]
pub struct Commitment(pub Element);

impl Commitment {
    /// The commitment to the sum of the two balances.
    pub fn add(&self, other: &Commitment) -> (c: Commitment)
        ensures
            c.0.spec_encoding() == decaf377_sum(self.0.spec_encoding(), other.0.spec_encoding()),
            other.0.spec_encoding() == identity_encoding() ==> c.0.spec_encoding()
                == self.0.spec_encoding(),
            self.0.spec_encoding() == identity_encoding() ==> c.0.spec_encoding()
                == other.0.spec_encoding(),
    {
        Commitment(self.0.add(&other.0))
    }

    /// The encoding of the commitment.
    pub fn to_bytes(&self) -> (b: [u8; 32])
        ensures
            b@ == self.0.spec_encoding(),
            crate::group::decaf377_decodes(b@),
    {
        self.0.vartime_compress()
    }

    /// The commitment that `bytes` encode, if they encode a group element.
    pub fn from_bytes(bytes: [u8; 32]) -> (c: Option<Commitment>)
        ensures
            c is Some <==> crate::group::decaf377_decodes(bytes@),
            c matches Some(c) ==> c.0.spec_encoding() == bytes@,
    {
        match Element::from_encoding(bytes) {
            Some(e) => Some(Commitment(e)),
            None => None,
        }
    }
}

/// A value that a transaction either provides or requires.
#[derive(Clone, Copy, Debug, PartialEq, Eq)]
pub struct Balance {
    /// Whether the value is required rather than provided.
    pub required: bool,
    pub value: Value,
}

/// The encoding of the commitment to a balance with a zero blinding factor:
/// the amount times the asset's generator, negated if required.
pub open spec fn spec_balance_commitment(b: Balance) -> Seq<u8> {
    let v = decaf377_multiple(b.value.amount.inner, spec_value_generator(b.value.asset_id@));
    if b.required {
        decaf377_negation(v)
    } else {
        v
    }
}

impl Balance {
    /// The balance that provides `value`.
    pub fn from_value(value: Value) -> (b: Balance)
        ensures
            b == (Balance { required: false, value }),
    {
        Balance { required: false, value }
    }

    /// The opposite balance: what was provided is required, and conversely.
    pub fn neg(&self) -> (b: Balance)
        ensures
            b == (Balance { required: !self.required, value: self.value }),
    {
        Balance { required: !self.required, value: self.value }
    }

    /// The commitment to the balance with a zero blinding factor, whose
    /// blinding term is the identity.
    pub fn commit_unblinded(&self) -> (c: Commitment)
        requires
            self.value.asset_id.wf(),
        ensures
            c.0.spec_encoding() == spec_balance_commitment(*self),
            self.value.amount.inner == 0 ==> c.0.spec_encoding() == identity_encoding(),
    {
        let g = self.value.asset_id.value_generator();
        let v = g.mul_u64(self.value.amount.inner);
        if self.required {
            Commitment(v.negate())
        } else {
            Commitment(v)
        }
    }
}

} // verus!
