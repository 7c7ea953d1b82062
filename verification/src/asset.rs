//! Amounts, asset identifiers, values and fees, with their byte forms.

use vstd::prelude::*;
use crate::bytes::{copy_into, read_array, u64_from_le, u64_from_le_bytes, u64_le_bytes, u64_to_le_bytes};
use crate::field::{fq_bytes_are_canonical, is_fq_encoding};

verus! {

/// An amount of some asset.
#[derive(Clone, Copy, Debug, PartialEq, Eq)]
pub struct Amount {
    pub inner: u64,
}

impl View for Amount {
    type V = u64;

    open spec fn view(&self) -> u64 {
        self.inner
    }
}

impl Amount {
    /// The amount, eight bytes least significant first.
    pub fn to_le_bytes(&self) -> (r: [u8; 8])
        ensures
            r@ == u64_le_bytes(self.inner),
    {
        u64_to_le_bytes(self.inner)
    }

    /// The amount whose little-endian bytes are `bytes`.
    pub fn from_le_bytes(bytes: [u8; 8]) -> (r: Amount)
        ensures
            r.inner == u64_from_le_bytes(bytes@),
    {
        Amount { inner: u64_from_le(bytes) }
    }

    /// The amount as an integer.
    pub fn value(&self) -> (r: u64)
        ensures
            r == self.inner,
    {
        self.inner
    }
}

impl From<u64> for Amount {
    fn from(inner: u64) -> (r: Amount) {
        Amount { inner }
    }
}

impl vstd::std_specs::convert::FromSpecImpl<u64> for Amount {
    open spec fn obeys_from_spec() -> bool {
        true
    }

    open spec fn from_spec(inner: u64) -> Amount {
        Amount { inner }
    }
}

/// The identifier of an asset: an element of `Fq`, held as its canonical
/// encoding.
#[derive(Clone, Copy, Debug, PartialEq, Eq)]
pub struct Id(pub [u8; 32]);

impl View for Id {
    type V = Seq<u8>;

    open spec fn view(&self) -> Seq<u8> {
        self.0@
    }
}

impl Id {
    /// The identifier is a field element.
    pub open spec fn wf(&self) -> bool {
        is_fq_encoding(self.0@)
    }

    /// The encoding of the identifier.
    pub fn to_bytes(&self) -> (r: [u8; 32])
        ensures
            r@ == self@,
    {
        self.0
    }

    /// The identifier that `bytes` encodes, if they encode a field element.
    pub fn from_bytes(bytes: [u8; 32]) -> (r: Option<Id>)
        ensures
            r is Some <==> is_fq_encoding(bytes@),
            r matches Some(id) ==> id@ == bytes@,
    {
        if fq_bytes_are_canonical(&bytes) {
            Some(Id(bytes))
        } else {
            None
        }
    }
}

/// An ordered pair of assets that can be exchanged for each other.
#[derive(Clone, Copy, Debug, PartialEq, Eq)]
pub struct TradingPair {
    pub asset_1: Id,
    pub asset_2: Id,
}

impl TradingPair {
    /// Both identifiers are field elements.
    pub open spec fn wf(&self) -> bool {
        self.asset_1.wf() && self.asset_2.wf()
    }

    /// The 64-byte form: the first asset's encoding, then the second's.
    pub open spec fn spec_bytes(&self) -> Seq<u8> {
        self.asset_1@ + self.asset_2@
    }

    /// The first asset of the pair.
    pub fn asset_1(&self) -> (r: Id)
        ensures
            r == self.asset_1,
    {
        self.asset_1
    }

    /// The second asset of the pair.
    pub fn asset_2(&self) -> (r: Id)
        ensures
            r == self.asset_2,
    {
        self.asset_2
    }

    /// The 64-byte form of the pair.
    pub fn to_bytes(&self) -> (r: [u8; 64])
        ensures
            r@ == self.spec_bytes(),
    {
        let mut out = [0u8; 64];
        copy_into(&mut out, 0, &self.asset_1.0);
        copy_into(&mut out, 32, &self.asset_2.0);
        assert(out@ =~= self.spec_bytes());
        out
    }

    /// The pair that `bytes` holds, if both halves encode field elements.
    pub fn from_bytes(bytes: [u8; 64]) -> (r: Option<TradingPair>)
        ensures
            r is Some <==> (is_fq_encoding(bytes@.subrange(0, 32)) && is_fq_encoding(
                bytes@.subrange(32, 64),
            )),
            r matches Some(tp) ==> tp.spec_bytes() == bytes@ && tp.wf(),
    {
        let b1: [u8; 32] = read_array(&bytes, 0);
        let b2: [u8; 32] = read_array(&bytes, 32);
        match Id::from_bytes(b1) {
            None => None,
            Some(asset_1) => match Id::from_bytes(b2) {
                None => None,
                Some(asset_2) => {
                    let tp = TradingPair { asset_1, asset_2 };
                    assert(tp.spec_bytes() =~= bytes@);
                    Some(tp)
                },
            },
        }
    }
}

/// An amount of a given asset.
#[derive(Clone, Copy, Debug, PartialEq, Eq)]
pub struct Value {
    pub amount: Amount,
    pub asset_id: Id,
}

/// A fee, paid as a value.
#[derive(Clone, Copy, Debug, PartialEq, Eq)]
pub struct Fee(pub Value);

} // verus!
