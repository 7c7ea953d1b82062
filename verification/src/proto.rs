//! The protocol messages that carry swap plaintexts, and the conversions
//! between them and the library's types. A message field that may be
//! absent is an `Option`; byte fields are vectors of any length.

use vstd::prelude::*;
use vstd::slice::slice_to_vec;
use crate::asset;
use crate::bytes::read_array;
use crate::field::is_fq_encoding;
use crate::keys;
use crate::swap::{self, SwapPlaintextView};
use crate::balance::Commitment;
use crate::group::decaf377_decodes;
use crate::note;
use crate::transaction;

verus! {

/// An asset identifier message.
#[derive(Clone, Debug, PartialEq, Eq)]
pub struct AssetId {
    pub inner: Vec<u8>,
}

/// An amount message.
#[derive(Clone, Debug, PartialEq, Eq)]
pub struct Amount {
    pub inner: u64,
}

/// An address message: the 80-byte form of an address.
#[derive(Clone, Debug, PartialEq, Eq)]
pub struct Address {
    pub inner: Vec<u8>,
}

/// A fee message.
#[derive(Clone, Debug, PartialEq, Eq)]
pub struct Fee {
    pub amount: Option<Amount>,
    pub asset_id: Option<AssetId>,
}

/// A trading pair message.
#[derive(Clone, Debug, PartialEq, Eq)]
pub struct TradingPair {
    pub asset_1: Option<AssetId>,
    pub asset_2: Option<AssetId>,
}

/// A swap plaintext message.
#[derive(Clone, Debug, PartialEq, Eq)]
pub struct SwapPlaintext {
    pub trading_pair: Option<TradingPair>,
    pub delta_1_i: Option<Amount>,
    pub delta_2_i: Option<Amount>,
    pub claim_fee: Option<Fee>,
    pub claim_address: Option<Address>,
}

/// An encrypted note message.
#[derive(Clone, Debug, PartialEq, Eq)]
pub struct NotePayload {
    pub note_commitment: Vec<u8>,
    pub ephemeral_key: Vec<u8>,
    pub encrypted_note: Vec<u8>,
}

/// A swap body message.
#[derive(Clone, Debug, PartialEq, Eq)]
pub struct SwapBody {
    pub trading_pair: Option<TradingPair>,
    pub delta_1_i: Option<Amount>,
    pub delta_2_i: Option<Amount>,
    pub fee_commitment: Vec<u8>,
    pub swap_nft: Option<NotePayload>,
    pub swap_ciphertext: Vec<u8>,
}

/// A swap message.
#[derive(Clone, Debug, PartialEq, Eq)]
pub struct Swap {
    pub proof: Vec<u8>,
    pub body: Option<SwapBody>,
}

/// Why a message does not convert.
#[derive(Clone, Copy, Debug, PartialEq, Eq)]
pub enum ProtoError {
    /// An asset identifier is not 32 bytes encoding a field element.
    InvalidAssetId,
    /// A fee has no amount.
    MissingFeeAmount,
    /// A fee has no asset identifier.
    MissingFeeAssetId,
    /// A trading pair lacks its first asset.
    MissingAsset1,
    /// A trading pair lacks its second asset.
    MissingAsset2,
    /// A swap plaintext has no first input amount.
    MissingDelta1,
    /// A swap plaintext has no second input amount.
    MissingDelta2,
    /// A swap plaintext has no claim address.
    MissingClaimAddress,
    /// A swap plaintext's claim address does not convert.
    InvalidClaimAddress,
    /// A swap plaintext has no claim fee.
    MissingClaimFee,
    /// A swap plaintext or body has no trading pair.
    MissingTradingPair,
    /// A swap body's fee commitment is not 32 bytes encoding a group element.
    InvalidFeeCommitment,
    /// A swap body has no NFT.
    MissingSwapNft,
    /// A note payload's commitment, ephemeral key or ciphertext is malformed.
    InvalidNotePayload,
    /// A swap body's ciphertext does not have the length of a swap ciphertext.
    InvalidSwapCiphertext,
    /// A swap has no body.
    MissingBody,
    /// A swap's proof bytes are not the byte form of a swap proof.
    MalformedProof,
}

/// Whether the note payload message holds a note payload: a 32-byte
/// commitment that is a field element, a 32-byte key and a 168-byte ciphertext.
pub open spec fn spec_note_payload_ok(m: NotePayload) -> bool {
    &&& m.note_commitment@.len() == 32
    &&& is_fq_encoding(m.note_commitment@)
    &&& m.ephemeral_key@.len() == 32
    &&& m.encrypted_note@.len() == 168
}

/// Whether the fee commitment bytes hold a commitment.
pub open spec fn spec_fee_commitment_ok(b: Seq<u8>) -> bool {
    b.len() == 32 && decaf377_decodes(b)
}

/// Why the swap body message does not convert, if it does not. The fields
/// are taken in the order: trading pair, the two amounts, fee commitment,
/// NFT, ciphertext.
pub open spec fn spec_swap_body_error(m: SwapBody) -> Option<ProtoError> {
    if m.trading_pair is None {
        Some(ProtoError::MissingTradingPair)
    } else if spec_trading_pair_error(m.trading_pair.unwrap()) is Some {
        spec_trading_pair_error(m.trading_pair.unwrap())
    } else if m.delta_1_i is None {
        Some(ProtoError::MissingDelta1)
    } else if m.delta_2_i is None {
        Some(ProtoError::MissingDelta2)
    } else if !spec_fee_commitment_ok(m.fee_commitment@) {
        Some(ProtoError::InvalidFeeCommitment)
    } else if m.swap_nft is None {
        Some(ProtoError::MissingSwapNft)
    } else if !spec_note_payload_ok(m.swap_nft.unwrap()) {
        Some(ProtoError::InvalidNotePayload)
    } else if m.swap_ciphertext@.len() != 216 {
        Some(ProtoError::InvalidSwapCiphertext)
    } else {
        None
    }
}

/// The body holds what the message that converts to it holds.
pub open spec fn spec_body_of(m: SwapBody, b: transaction::Body) -> bool {
    let tp = m.trading_pair.unwrap();
    let nft = m.swap_nft.unwrap();
    &&& b.trading_pair.asset_1@ == tp.asset_1.unwrap().inner@
    &&& b.trading_pair.asset_2@ == tp.asset_2.unwrap().inner@
    &&& b.delta_1_i.inner == m.delta_1_i.unwrap().inner
    &&& b.delta_2_i.inner == m.delta_2_i.unwrap().inner
    &&& b.fee_commitment.0.spec_encoding() == m.fee_commitment@
    &&& b.swap_nft.note_commitment@ == nft.note_commitment@
    &&& b.swap_nft.ephemeral_key.0@ == nft.ephemeral_key@
    &&& b.swap_nft.encrypted_note@ == nft.encrypted_note@
    &&& b.swap_ciphertext.0@ == m.swap_ciphertext@
}

/// The asset identifier that the message bytes `m` hold, if any.
pub open spec fn spec_asset_id_ok(m: Seq<u8>) -> bool {
    m.len() == 32 && is_fq_encoding(m)
}

/// Whether the address message bytes `m` hold an address.
pub open spec fn spec_address_ok(m: Seq<u8>) -> bool {
    m.len() == 80 && is_fq_encoding(m.subrange(16, 48))
}

/// Why the fee message does not convert, if it does not.
pub open spec fn spec_fee_error(m: Fee) -> Option<ProtoError> {
    match m.amount {
        None => Some(ProtoError::MissingFeeAmount),
        Some(_) => match m.asset_id {
            None => Some(ProtoError::MissingFeeAssetId),
            Some(id) => if spec_asset_id_ok(id.inner@) {
                None
            } else {
                Some(ProtoError::InvalidAssetId)
            },
        },
    }
}

/// Why the trading pair message does not convert, if it does not.
pub open spec fn spec_trading_pair_error(m: TradingPair) -> Option<ProtoError> {
    match m.asset_1 {
        None => Some(ProtoError::MissingAsset1),
        Some(a1) => if !spec_asset_id_ok(a1.inner@) {
            Some(ProtoError::InvalidAssetId)
        } else {
            match m.asset_2 {
                None => Some(ProtoError::MissingAsset2),
                Some(a2) => if spec_asset_id_ok(a2.inner@) {
                    None
                } else {
                    Some(ProtoError::InvalidAssetId)
                },
            }
        },
    }
}

/// Why the swap plaintext message does not convert, if it does not. The
/// fields are taken in the order: first and second input amounts, claim
/// address, claim fee, trading pair.
pub open spec fn spec_swap_plaintext_error(m: SwapPlaintext) -> Option<ProtoError> {
    if m.delta_1_i is None {
        Some(ProtoError::MissingDelta1)
    } else if m.delta_2_i is None {
        Some(ProtoError::MissingDelta2)
    } else if m.claim_address is None {
        Some(ProtoError::MissingClaimAddress)
    } else if !spec_address_ok(m.claim_address.unwrap().inner@) {
        Some(ProtoError::InvalidClaimAddress)
    } else if m.claim_fee is None {
        Some(ProtoError::MissingClaimFee)
    } else if spec_fee_error(m.claim_fee.unwrap()) is Some {
        spec_fee_error(m.claim_fee.unwrap())
    } else if m.trading_pair is None {
        Some(ProtoError::MissingTradingPair)
    } else {
        spec_trading_pair_error(m.trading_pair.unwrap())
    }
}

/// The swap plaintext that a message which converts holds.
pub open spec fn spec_swap_plaintext_of(m: SwapPlaintext) -> SwapPlaintextView {
    let tp = m.trading_pair.unwrap();
    let fee = m.claim_fee.unwrap();
    let addr = m.claim_address.unwrap().inner@;
    SwapPlaintextView {
        asset_1: tp.asset_1.unwrap().inner@,
        asset_2: tp.asset_2.unwrap().inner@,
        delta_1_i: m.delta_1_i.unwrap().inner,
        delta_2_i: m.delta_2_i.unwrap().inner,
        fee_amount: fee.amount.unwrap().inner,
        fee_asset_id: fee.asset_id.unwrap().inner@,
        diversifier: addr.subrange(0, 16),
        transmission_key: addr.subrange(16, 48),
        clue_key: addr.subrange(48, 80),
    }
}

/// What converting the swap plaintext message gives.
pub open spec fn spec_from_proto(m: SwapPlaintext) -> Result<SwapPlaintextView, ProtoError> {
    match spec_swap_plaintext_error(m) {
        Some(e) => Err(e),
        None => Ok(spec_swap_plaintext_of(m)),
    }
}

/// A conversion outcome, with the plaintext taken by its view.
pub open spec fn proto_result_view(r: Result<swap::SwapPlaintext, ProtoError>) -> Result<SwapPlaintextView, ProtoError> {
    match r {
        Ok(p) => Ok(p@),
        Err(e) => Err(e),
    }
}

/// The message that holds the swap plaintext `v`, every field present.
pub open spec fn spec_to_proto_holds(m: SwapPlaintext, v: SwapPlaintextView) -> bool {
    &&& m.trading_pair is Some
    &&& m.trading_pair.unwrap().asset_1 is Some
    &&& m.trading_pair.unwrap().asset_1.unwrap().inner@ == v.asset_1
    &&& m.trading_pair.unwrap().asset_2 is Some
    &&& m.trading_pair.unwrap().asset_2.unwrap().inner@ == v.asset_2
    &&& m.delta_1_i == Some(Amount { inner: v.delta_1_i })
    &&& m.delta_2_i == Some(Amount { inner: v.delta_2_i })
    &&& m.claim_fee is Some
    &&& m.claim_fee.unwrap().amount == Some(Amount { inner: v.fee_amount })
    &&& m.claim_fee.unwrap().asset_id is Some
    &&& m.claim_fee.unwrap().asset_id.unwrap().inner@ == v.fee_asset_id
    &&& m.claim_address is Some
    &&& m.claim_address.unwrap().inner@ == v.diversifier + v.transmission_key + v.clue_key
}

impl asset::Amount {
    /// The amount message.
    pub fn to_proto(&self) -> (m: Amount)
        ensures
            m.inner == self.inner,
    {
        Amount { inner: self.inner }
    }

    /// The amount that the message holds.
    pub fn from_proto(m: &Amount) -> (a: asset::Amount)
        ensures
            a.inner == m.inner,
    {
        asset::Amount { inner: m.inner }
    }
}

impl asset::Id {
    /// The asset identifier message.
    pub fn to_proto(&self) -> (m: AssetId)
        ensures
            m.inner@ == self@,
    {
        AssetId { inner: slice_to_vec(&self.0) }
    }

    /// The asset identifier that the message holds, if it holds one.
    pub fn from_proto(m: &AssetId) -> (r: Result<asset::Id, ProtoError>)
        ensures
            r is Ok <==> spec_asset_id_ok(m.inner@),
            r matches Ok(id) ==> id@ == m.inner@ && id.wf(),
            r matches Err(e) ==> e == ProtoError::InvalidAssetId,
    {
        if m.inner.len() != 32 {
            return Err(ProtoError::InvalidAssetId);
        }
        let bytes: [u8; 32] = read_array(m.inner.as_slice(), 0);
        assert(bytes@ =~= m.inner@);
        match asset::Id::from_bytes(bytes) {
            Some(id) => Ok(id),
            None => Err(ProtoError::InvalidAssetId),
        }
    }
}

impl asset::Fee {
    /// The fee message.
    pub fn to_proto(&self) -> (m: Fee)
        ensures
            m.amount == Some(Amount { inner: self.0.amount.inner }),
            m.asset_id matches Some(id) && id.inner@ == self.0.asset_id@,
    {
        Fee { amount: Some(self.0.amount.to_proto()), asset_id: Some(self.0.asset_id.to_proto()) }
    }

    /// The fee that the message holds, or why it holds none.
    pub fn from_proto(m: &Fee) -> (r: Result<asset::Fee, ProtoError>)
        ensures
            match r {
                Ok(fee) => spec_fee_error(*m) is None && fee.0.amount.inner == m.amount.unwrap().inner
                    && fee.0.asset_id@ == m.asset_id.unwrap().inner@ && fee.0.asset_id.wf(),
                Err(e) => spec_fee_error(*m) == Some(e),
            },
    {
        let amount = match &m.amount {
            None => return Err(ProtoError::MissingFeeAmount),
            Some(a) => asset::Amount::from_proto(a),
        };
        let asset_id = match &m.asset_id {
            None => return Err(ProtoError::MissingFeeAssetId),
            Some(id) => asset::Id::from_proto(id)?,
        };
        Ok(asset::Fee(asset::Value { amount, asset_id }))
    }
}

impl asset::TradingPair {
    /// The trading pair message.
    pub fn to_proto(&self) -> (m: TradingPair)
        ensures
            m.asset_1 matches Some(a1) && a1.inner@ == self.asset_1@,
            m.asset_2 matches Some(a2) && a2.inner@ == self.asset_2@,
    {
        TradingPair {
            asset_1: Some(self.asset_1.to_proto()),
            asset_2: Some(self.asset_2.to_proto()),
        }
    }

    /// The trading pair that the message holds, or why it holds none.
    pub fn from_proto(m: &TradingPair) -> (r: Result<asset::TradingPair, ProtoError>)
        ensures
            match r {
                Ok(tp) => spec_trading_pair_error(*m) is None && tp.asset_1@
                    == m.asset_1.unwrap().inner@ && tp.asset_2@ == m.asset_2.unwrap().inner@
                    && tp.wf(),
                Err(e) => spec_trading_pair_error(*m) == Some(e),
            },
    {
        let asset_1 = match &m.asset_1 {
            None => return Err(ProtoError::MissingAsset1),
            Some(id) => asset::Id::from_proto(id)?,
        };
        let asset_2 = match &m.asset_2 {
            None => return Err(ProtoError::MissingAsset2),
            Some(id) => asset::Id::from_proto(id)?,
        };
        Ok(asset::TradingPair { asset_1, asset_2 })
    }
}

impl keys::Address {
    /// The address message.
    pub fn to_proto(&self) -> (m: Address)
        ensures
            m.inner@ == self.spec_bytes(),
    {
        Address { inner: slice_to_vec(&self.to_bytes()) }
    }

    /// The address that the message holds, if it holds one.
    pub fn from_proto(m: &Address) -> (r: Option<keys::Address>)
        ensures
            r is Some <==> spec_address_ok(m.inner@),
            r matches Some(a) ==> a.spec_bytes() == m.inner@ && a.wf(),
    {
        if m.inner.len() != 80 {
            return None;
        }
        let bytes: [u8; 80] = read_array(m.inner.as_slice(), 0);
        assert(bytes@ =~= m.inner@);
        keys::Address::from_bytes(&bytes)
    }
}

impl swap::SwapPlaintext {
    /// The swap plaintext message, every field present.
    pub fn to_proto(&self) -> (m: SwapPlaintext)
        ensures
            spec_to_proto_holds(m, self@),
            m.delta_1_i == Some(Amount { inner: self.delta_1_i.inner }),
            m.delta_2_i == Some(Amount { inner: self.delta_2_i.inner }),
            m.claim_fee is Some,
            m.claim_fee.unwrap().amount == Some(Amount { inner: self.claim_fee.0.amount.inner }),
            m.claim_fee.unwrap().asset_id is Some,
            m.claim_fee.unwrap().asset_id.unwrap().inner@ == self.claim_fee.0.asset_id.0@,
            m.trading_pair is Some,
            m.trading_pair.unwrap().asset_1 is Some,
            m.trading_pair.unwrap().asset_1.unwrap().inner@ == self.trading_pair.asset_1.0@,
            m.trading_pair.unwrap().asset_2 is Some,
            m.trading_pair.unwrap().asset_2.unwrap().inner@ == self.trading_pair.asset_2.0@,
            m.claim_address is Some,
            m.claim_address.unwrap().inner@ == self.claim_address.diversifier.0@
                + self.claim_address.transmission_key.0@ + self.claim_address.clue_key.0@,
    {
        SwapPlaintext {
            trading_pair: Some(self.trading_pair.to_proto()),
            delta_1_i: Some(self.delta_1_i.to_proto()),
            delta_2_i: Some(self.delta_2_i.to_proto()),
            claim_fee: Some(self.claim_fee.to_proto()),
            claim_address: Some(self.claim_address.to_proto()),
        }
    }

    /// The swap plaintext that the message holds, or why it holds none.
    pub fn from_proto(m: &SwapPlaintext) -> (r: Result<swap::SwapPlaintext, ProtoError>)
        ensures
            proto_result_view(r) == spec_from_proto(*m),
            r matches Ok(p) ==> p.delta_1_i.inner == m.delta_1_i.unwrap().inner
                && p.delta_2_i.inner == m.delta_2_i.unwrap().inner
                && p.claim_fee.0.amount.inner == m.claim_fee.unwrap().amount.unwrap().inner
                && p.claim_fee.0.asset_id.0@ == m.claim_fee.unwrap().asset_id.unwrap().inner@
                && p.trading_pair.asset_1.0@ == m.trading_pair.unwrap().asset_1.unwrap().inner@
                && p.trading_pair.asset_2.0@ == m.trading_pair.unwrap().asset_2.unwrap().inner@
                && p.claim_address.diversifier.0@ == m.claim_address.unwrap().inner@.subrange(0, 16)
                && p.claim_address.transmission_key.0@ == m.claim_address.unwrap().inner@.subrange(
                16,
                48,
            ) && p.claim_address.clue_key.0@ == m.claim_address.unwrap().inner@.subrange(48, 80),
    {
        let delta_1_i = match &m.delta_1_i {
            None => return Err(ProtoError::MissingDelta1),
            Some(a) => asset::Amount::from_proto(a),
        };
        let delta_2_i = match &m.delta_2_i {
            None => return Err(ProtoError::MissingDelta2),
            Some(a) => asset::Amount::from_proto(a),
        };
        let claim_address = match &m.claim_address {
            None => return Err(ProtoError::MissingClaimAddress),
            Some(a) => match keys::Address::from_proto(a) {
                None => return Err(ProtoError::InvalidClaimAddress),
                Some(a) => a,
            },
        };
        let claim_fee = match &m.claim_fee {
            None => return Err(ProtoError::MissingClaimFee),
            Some(f) => asset::Fee::from_proto(f)?,
        };
        let trading_pair = match &m.trading_pair {
            None => return Err(ProtoError::MissingTradingPair),
            Some(tp) => asset::TradingPair::from_proto(tp)?,
        };
        let p = swap::SwapPlaintext { trading_pair, delta_1_i, delta_2_i, claim_fee, claim_address };
        proof {
            let addr = m.claim_address.unwrap().inner@;
            assert(claim_address.spec_bytes().subrange(0, 16) =~= p@.diversifier);
            assert(claim_address.spec_bytes().subrange(16, 48) =~= p@.transmission_key);
            assert(claim_address.spec_bytes().subrange(48, 80) =~= p@.clue_key);
        }
        Ok(p)
    }
}

impl note::NotePayload {
    /// The note payload message.
    pub fn to_proto(&self) -> (m: NotePayload)
        ensures
            m.note_commitment@ == self.note_commitment@,
            m.ephemeral_key@ == self.ephemeral_key.0@,
            m.encrypted_note@ == self.encrypted_note@,
    {
        NotePayload {
            note_commitment: slice_to_vec(&self.note_commitment),
            ephemeral_key: slice_to_vec(&self.ephemeral_key.0),
            encrypted_note: slice_to_vec(&self.encrypted_note),
        }
    }

    /// The note payload that the message holds, if it holds one.
    pub fn from_proto(m: &NotePayload) -> (r: Option<note::NotePayload>)
        ensures
            r is Some <==> spec_note_payload_ok(*m),
            r matches Some(p) ==> p.note_commitment@ == m.note_commitment@ && p.ephemeral_key.0@
                == m.ephemeral_key@ && p.encrypted_note@ == m.encrypted_note@,
    {
        if m.note_commitment.len() != 32 || m.ephemeral_key.len() != 32 || m.encrypted_note.len()
            != 168 {
            return None;
        }
        let note_commitment: [u8; 32] = read_array(m.note_commitment.as_slice(), 0);
        let ephemeral_key: [u8; 32] = read_array(m.ephemeral_key.as_slice(), 0);
        let encrypted_note: [u8; 168] = read_array(m.encrypted_note.as_slice(), 0);
        assert(note_commitment@ =~= m.note_commitment@);
        assert(ephemeral_key@ =~= m.ephemeral_key@);
        assert(encrypted_note@ =~= m.encrypted_note@);
        if !crate::field::fq_bytes_are_canonical(&note_commitment) {
            return None;
        }
        Some(
            note::NotePayload {
                note_commitment,
                ephemeral_key: keys::Public(ephemeral_key),
                encrypted_note,
            },
        )
    }
}

impl transaction::Body {
    /// The swap body message, every field present.
    pub fn to_proto(&self) -> (m: SwapBody)
        ensures
            self.wf() ==> spec_swap_body_error(m) is None,
            m.trading_pair is Some && m.swap_nft is Some && m.delta_1_i is Some && m.delta_2_i is Some,
            m.trading_pair.unwrap().asset_1 is Some && m.trading_pair.unwrap().asset_2 is Some,
            spec_body_of(m, *self),
            forall|b: transaction::Body| spec_body_of(m, b) ==> b == *self,
            m.trading_pair.unwrap().asset_1.unwrap().inner@ == self.trading_pair.asset_1.0@,
            m.trading_pair.unwrap().asset_2.unwrap().inner@ == self.trading_pair.asset_2.0@,
            m.delta_1_i == Some(Amount { inner: self.delta_1_i.inner }),
            m.delta_2_i == Some(Amount { inner: self.delta_2_i.inner }),
            m.fee_commitment@ == self.fee_commitment.0.spec_encoding(),
            m.swap_nft.unwrap().note_commitment@ == self.swap_nft.note_commitment@,
            m.swap_nft.unwrap().ephemeral_key@ == self.swap_nft.ephemeral_key.0@,
            m.swap_nft.unwrap().encrypted_note@ == self.swap_nft.encrypted_note@,
            m.swap_ciphertext@ == self.swap_ciphertext.0@,
    {
        let m = SwapBody {
            trading_pair: Some(self.trading_pair.to_proto()),
            delta_1_i: Some(self.delta_1_i.to_proto()),
            delta_2_i: Some(self.delta_2_i.to_proto()),
            fee_commitment: slice_to_vec(&self.fee_commitment.to_bytes()),
            swap_nft: Some(self.swap_nft.to_proto()),
            swap_ciphertext: slice_to_vec(&self.swap_ciphertext.0),
        };
        proof {
            assert forall|b: transaction::Body| spec_body_of(m, b) implies b == *self by {
                lemma_body_of_unique(m, b, *self);
            }
        }
        m
    }

    /// The body that the message holds, or why it holds none.
    pub fn from_proto(m: &SwapBody) -> (r: Result<transaction::Body, ProtoError>)
        ensures
            match r {
                Ok(b) => spec_swap_body_error(*m) is None && spec_body_of(*m, b) && b.wf(),
                Err(e) => spec_swap_body_error(*m) == Some(e),
            },
            r matches Ok(b) ==> b.trading_pair.asset_1.0@ == m.trading_pair.unwrap().asset_1.unwrap().inner@
                && b.trading_pair.asset_2.0@ == m.trading_pair.unwrap().asset_2.unwrap().inner@
                && b.delta_1_i.inner == m.delta_1_i.unwrap().inner
                && b.delta_2_i.inner == m.delta_2_i.unwrap().inner
                && b.fee_commitment.0.spec_encoding() == m.fee_commitment@
                && b.swap_nft.note_commitment@ == m.swap_nft.unwrap().note_commitment@
                && b.swap_nft.ephemeral_key.0@ == m.swap_nft.unwrap().ephemeral_key@
                && b.swap_nft.encrypted_note@ == m.swap_nft.unwrap().encrypted_note@
                && b.swap_ciphertext.0@ == m.swap_ciphertext@,
    {
        let trading_pair = match &m.trading_pair {
            None => return Err(ProtoError::MissingTradingPair),
            Some(tp) => asset::TradingPair::from_proto(tp)?,
        };
        let delta_1_i = match &m.delta_1_i {
            None => return Err(ProtoError::MissingDelta1),
            Some(a) => asset::Amount::from_proto(a),
        };
        let delta_2_i = match &m.delta_2_i {
            None => return Err(ProtoError::MissingDelta2),
            Some(a) => asset::Amount::from_proto(a),
        };
        if m.fee_commitment.len() != 32 {
            return Err(ProtoError::InvalidFeeCommitment);
        }
        let fee_bytes: [u8; 32] = read_array(m.fee_commitment.as_slice(), 0);
        assert(fee_bytes@ =~= m.fee_commitment@);
        let fee_commitment = match Commitment::from_bytes(fee_bytes) {
            None => return Err(ProtoError::InvalidFeeCommitment),
            Some(c) => c,
        };
        let swap_nft = match &m.swap_nft {
            None => return Err(ProtoError::MissingSwapNft),
            Some(p) => match note::NotePayload::from_proto(p) {
                None => return Err(ProtoError::InvalidNotePayload),
                Some(p) => p,
            },
        };
        let swap_ciphertext = match swap::SwapCiphertext::from_bytes(m.swap_ciphertext.as_slice()) {
            None => return Err(ProtoError::InvalidSwapCiphertext),
            Some(c) => c,
        };
        Ok(
            transaction::Body {
                trading_pair,
                delta_1_i,
                delta_2_i,
                fee_commitment,
                swap_nft,
                swap_ciphertext,
            },
        )
    }
}

/// Why the swap message does not convert, if it does not: the proof is
/// taken first, then the body.
pub open spec fn spec_swap_error(m: Swap) -> Option<ProtoError> {
    if !transaction::spec_proof_bytes_ok(m.proof@) {
        Some(ProtoError::MalformedProof)
    } else {
        match m.body {
            None => Some(ProtoError::MissingBody),
            Some(b) => spec_swap_body_error(b),
        }
    }
}

/// The swap holds what the message that converts to it holds.
pub open spec fn spec_swap_of(m: Swap, s: transaction::Swap) -> bool {
    &&& s.proof.spec_bytes() == m.proof@
    &&& s.proof.wf()
    &&& spec_body_of(m.body.unwrap(), s.body)
}

impl transaction::Swap {
    /// The swap message: the proof's byte form and the body's message.
    pub fn to_proto(&self) -> (m: Swap)
        ensures
            m.proof@ == self.proof.spec_bytes(),
            m.body is Some,
            m.body.unwrap().trading_pair is Some && m.body.unwrap().swap_nft is Some,
            m.body.unwrap().delta_1_i is Some && m.body.unwrap().delta_2_i is Some,
            m.body.unwrap().trading_pair.unwrap().asset_1 is Some,
            m.body.unwrap().trading_pair.unwrap().asset_2 is Some,
            spec_body_of(m.body.unwrap(), self.body),
            self.wf() ==> spec_swap_error(m) is None,
            self.wf() ==> forall|s: transaction::Swap| spec_swap_of(m, s) ==> s == *self,
    {
        let m = Swap { proof: slice_to_vec(&self.proof.to_bytes()), body: Some(self.body.to_proto()) };
        proof {
            if self.wf() {
                assert forall|s: transaction::Swap| spec_swap_of(m, s) implies s == *self by {
                    transaction::lemma_proof_bytes_determine(s.proof, self.proof);
                    lemma_body_of_unique(m.body.unwrap(), s.body, self.body);
                }
                swap::lemma_decode_encode(self.proof.swap_plaintext@);
                let b = m.proof@;
                assert(b.subrange(0, 200) =~= swap::spec_swap_bytes(self.proof.swap_plaintext@));
                assert(b.subrange(200, 232) =~= self.proof.fee_blinding@);
                assert(b.subrange(232, 264) =~= self.proof.note_blinding@);
            }
        }
        m
    }

    /// The swap that the message holds, or why it holds none.
    pub fn from_proto(m: &Swap) -> (r: Result<transaction::Swap, ProtoError>)
        ensures
            match r {
                Ok(s) => spec_swap_error(*m) is None && spec_swap_of(*m, s) && s.wf(),
                Err(e) => spec_swap_error(*m) == Some(e),
            },
            r matches Ok(s) ==> s.proof.spec_bytes() == m.proof@
                && s.body.delta_1_i.inner == m.body.unwrap().delta_1_i.unwrap().inner
                && s.body.delta_2_i.inner == m.body.unwrap().delta_2_i.unwrap().inner
                && s.body.swap_ciphertext.0@ == m.body.unwrap().swap_ciphertext@,
    {
        let proof = match transaction::SwapProof::from_bytes(m.proof.as_slice()) {
            None => return Err(ProtoError::MalformedProof),
            Some(p) => p,
        };
        let body = match &m.body {
            None => return Err(ProtoError::MissingBody),
            Some(b) => transaction::Body::from_proto(b)?,
        };
        Ok(transaction::Swap { proof, body })
    }
}

/// A swap body message determines the body it converts to: converting the
/// message of a body gives that body back.
pub proof fn lemma_body_of_unique(m: SwapBody, a: transaction::Body, b: transaction::Body)
    requires
        spec_body_of(m, a),
        spec_body_of(m, b),
    ensures
        a == b,
{
    assert(a.trading_pair.asset_1.0 =~= b.trading_pair.asset_1.0);
    assert(a.trading_pair.asset_2.0 =~= b.trading_pair.asset_2.0);
    crate::group::Element::lemma_encoding_determines(a.fee_commitment.0, b.fee_commitment.0);
    assert(a.swap_nft.note_commitment =~= b.swap_nft.note_commitment);
    assert(a.swap_nft.ephemeral_key.0 =~= b.swap_nft.ephemeral_key.0);
    assert(a.swap_nft.encrypted_note =~= b.swap_nft.encrypted_note);
    assert(a.swap_ciphertext.0 =~= b.swap_ciphertext.0);
}

/// Converting the message of a valid swap plaintext gives it back.
pub proof fn lemma_from_proto_to_proto(m: SwapPlaintext, v: SwapPlaintextView)
    requires
        spec_to_proto_holds(m, v),
        v.wf(),
    ensures
        spec_from_proto(m) == Ok::<SwapPlaintextView, ProtoError>(v),
{
    let addr = m.claim_address.unwrap().inner@;
    assert(addr.subrange(0, 16) =~= v.diversifier);
    assert(addr.subrange(16, 48) =~= v.transmission_key);
    assert(addr.subrange(48, 80) =~= v.clue_key);
}

} // verus!
