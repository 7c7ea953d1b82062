//! Swap plaintexts: what a swap commits to, its 200-byte form, the unique
//! asset identifier of the swap, and its encryption to the claim address.

use vstd::prelude::*;
use crate::asset::{Amount, Fee, Id, TradingPair, Value};
use crate::bytes::{copy_into, read_array, u64_from_le_bytes, u64_le_bytes, lemma_u64_le_roundtrip, lemma_u64_le_bytes_of_read};
use crate::field::{fq_from_le_bytes_mod_order, fq_from_u64, fq_reduce, is_fq_encoding, lemma_fq_reduce_canonical, lemma_u64_canonical, nat_to_le};
use crate::group::{decaf377_decodes, diversified_public_key, shared_secret, Element};
use crate::hash::{blake2b, blake2b_digest, hash_4, hash_6, poseidon_hash_4, poseidon_hash_6};
use crate::keys::{spec_diversified_generator, Address, Public, Secret};
use crate::symmetric::{chacha20poly1305_open, chacha20poly1305_seal, spec_nonce, spec_payload_key, PayloadKey, PayloadKind};

verus! {

/// The length of the byte form of a swap plaintext.
pub const SWAP_LEN_BYTES: usize = 200;

/// The length of an encrypted swap plaintext: the plaintext and a 16-byte tag.
pub const SWAP_CIPHERTEXT_BYTES: usize = 216;

/// Why bytes do not decode to a swap plaintext, or a ciphertext does not
/// decrypt to one.
#[derive(Clone, Copy, Debug, PartialEq, Eq)]
pub enum SwapError {
    /// The bytes do not have the length of a swap plaintext.
    IncorrectLength,
    /// The trading pair's asset identifiers are not both field elements.
    InvalidTradingPair,
    /// The fee's asset identifier is not a field element.
    InvalidAssetId,
    /// The claim address's transmission key is not a field element.
    InvalidAddress,
    /// The transmission key is not a group element, so no key agreement.
    KeyAgreement,
    /// The ciphertext is not authentic under the derived key.
    DecryptionFailed,
}

/// What a swap plaintext holds, as plain values.
pub struct SwapPlaintextView {
    pub asset_1: Seq<u8>,
    pub asset_2: Seq<u8>,
    pub delta_1_i: u64,
    pub delta_2_i: u64,
    pub fee_amount: u64,
    pub fee_asset_id: Seq<u8>,
    pub diversifier: Seq<u8>,
    pub transmission_key: Seq<u8>,
    pub clue_key: Seq<u8>,
}

impl SwapPlaintextView {
    /// Every part has its size, and the identifiers and the transmission
    /// key are field elements.
    pub open spec fn wf(&self) -> bool {
        &&& is_fq_encoding(self.asset_1)
        &&& is_fq_encoding(self.asset_2)
        &&& is_fq_encoding(self.fee_asset_id)
        &&& self.diversifier.len() == 16
        &&& is_fq_encoding(self.transmission_key)
        &&& self.clue_key.len() == 32
    }
}

/// The byte form of a swap plaintext: the trading pair's two identifiers,
/// the two input amounts and the fee amount (eight bytes each, least
/// significant first), the fee's identifier, then the claim address's
/// diversifier, transmission key and clue key.
pub open spec fn spec_swap_bytes(v: SwapPlaintextView) -> Seq<u8> {
    v.asset_1 + v.asset_2 + u64_le_bytes(v.delta_1_i) + u64_le_bytes(v.delta_2_i) + u64_le_bytes(
        v.fee_amount,
    ) + v.fee_asset_id + v.diversifier + v.transmission_key + v.clue_key
}

/// The swap plaintext that `b` holds, or why it holds none.
pub open spec fn spec_from_swap_bytes(b: Seq<u8>) -> Result<SwapPlaintextView, SwapError> {
    if b.len() != 200 {
        Err(SwapError::IncorrectLength)
    } else if !(is_fq_encoding(b.subrange(0, 32)) && is_fq_encoding(b.subrange(32, 64))) {
        Err(SwapError::InvalidTradingPair)
    } else if !is_fq_encoding(b.subrange(88, 120)) {
        Err(SwapError::InvalidAssetId)
    } else if !is_fq_encoding(b.subrange(136, 168)) {
        Err(SwapError::InvalidAddress)
    } else {
        Ok(
            SwapPlaintextView {
                asset_1: b.subrange(0, 32),
                asset_2: b.subrange(32, 64),
                delta_1_i: u64_from_le_bytes(b.subrange(64, 72)),
                delta_2_i: u64_from_le_bytes(b.subrange(72, 80)),
                fee_amount: u64_from_le_bytes(b.subrange(80, 88)),
                fee_asset_id: b.subrange(88, 120),
                diversifier: b.subrange(120, 136),
                transmission_key: b.subrange(136, 168),
                clue_key: b.subrange(168, 200),
            },
        )
    }
}

/// Decoding the byte form of a valid swap plaintext gives it back, and that
/// byte form has the length of a swap plaintext.
pub proof fn lemma_decode_encode(v: SwapPlaintextView)
    requires
        v.wf(),
    ensures
        spec_swap_bytes(v).len() == 200,
        spec_from_swap_bytes(spec_swap_bytes(v)) == Ok::<SwapPlaintextView, SwapError>(v),
{
    let b = spec_swap_bytes(v);
    lemma_u64_le_roundtrip(v.delta_1_i);
    lemma_u64_le_roundtrip(v.delta_2_i);
    lemma_u64_le_roundtrip(v.fee_amount);
    assert(b.subrange(0, 32) =~= v.asset_1);
    assert(b.subrange(32, 64) =~= v.asset_2);
    assert(b.subrange(64, 72) =~= u64_le_bytes(v.delta_1_i));
    assert(b.subrange(72, 80) =~= u64_le_bytes(v.delta_2_i));
    assert(b.subrange(80, 88) =~= u64_le_bytes(v.fee_amount));
    assert(b.subrange(88, 120) =~= v.fee_asset_id);
    assert(b.subrange(120, 136) =~= v.diversifier);
    assert(b.subrange(136, 168) =~= v.transmission_key);
    assert(b.subrange(168, 200) =~= v.clue_key);
}

/// Bytes that decode are the byte form of what they decode to, and that is
/// a valid swap plaintext.
pub proof fn lemma_encode_decode(b: Seq<u8>)
    requires
        spec_from_swap_bytes(b) is Ok,
    ensures
        spec_from_swap_bytes(b).unwrap().wf(),
        spec_swap_bytes(spec_from_swap_bytes(b).unwrap()) == b,
{
    let v = spec_from_swap_bytes(b).unwrap();
    lemma_u64_le_bytes_of_read(b.subrange(64, 72));
    lemma_u64_le_bytes_of_read(b.subrange(72, 80));
    lemma_u64_le_bytes_of_read(b.subrange(80, 88));
    assert(spec_swap_bytes(v) =~= b);
}

/// Distinct valid swap plaintexts have distinct byte forms.
pub proof fn lemma_swap_bytes_injective(v: SwapPlaintextView, w: SwapPlaintextView)
    requires
        v.wf(),
        w.wf(),
        spec_swap_bytes(v) == spec_swap_bytes(w),
    ensures
        v == w,
{
    lemma_decode_encode(v);
    lemma_decode_encode(w);
}

/// A swap plaintext is determined by what it holds.
pub proof fn lemma_view_determines(p: SwapPlaintext, q: SwapPlaintext)
    requires
        p@ == q@,
    ensures
        p == q,
{
    assert(p.trading_pair.asset_1.0 =~= q.trading_pair.asset_1.0);
    assert(p.trading_pair.asset_2.0 =~= q.trading_pair.asset_2.0);
    assert(p.claim_fee.0.asset_id.0 =~= q.claim_fee.0.asset_id.0);
    assert(p.claim_address.diversifier.0 =~= q.claim_address.diversifier.0);
    assert(p.claim_address.transmission_key.0 =~= q.claim_address.transmission_key.0);
    assert(p.claim_address.clue_key.0 =~= q.claim_address.clue_key.0);
}

/// The key under which a swap is encrypted with the ephemeral secret `esk`
/// to the transmission key `transmission_key` and the generator
/// `basepoint`: the payload key of their shared secret and of the ephemeral
/// public key `[esk] basepoint`.
pub open spec fn spec_swap_key(esk: Seq<u8>, transmission_key: Seq<u8>, basepoint: Seq<u8>) -> Seq<u8> {
    spec_payload_key(shared_secret(esk, transmission_key), diversified_public_key(esk, basepoint))
}

/// The encryption of `v` with the ephemeral secret `esk` to its own claim
/// address.
pub open spec fn spec_encrypt_swap(v: SwapPlaintextView, esk: Seq<u8>) -> Seq<u8> {
    chacha20poly1305_seal(
        spec_swap_key(esk, v.transmission_key, spec_diversified_generator(v.diversifier)),
        spec_nonce(PayloadKind::Swap),
        spec_swap_bytes(v),
    )
}

/// What decrypting the ciphertext `c` under the payload key `key` gives.
pub open spec fn spec_open_swap(key: Seq<u8>, c: Seq<u8>) -> Result<SwapPlaintextView, SwapError> {
    match chacha20poly1305_open(key, spec_nonce(PayloadKind::Swap), c) {
        None => Err(SwapError::DecryptionFailed),
        Some(p) => spec_from_swap_bytes(p),
    }
}

/// What decrypting the ciphertext `c` with the ephemeral secret `esk`, the
/// transmission key and the generator gives.
pub open spec fn spec_decrypt_swap(
    c: Seq<u8>,
    esk: Seq<u8>,
    transmission_key: Seq<u8>,
    basepoint: Seq<u8>,
) -> Result<SwapPlaintextView, SwapError> {
    if !decaf377_decodes(transmission_key) {
        Err(SwapError::KeyAgreement)
    } else {
        spec_open_swap(spec_swap_key(esk, transmission_key, basepoint), c)
    }
}

/// The tag "penumbra.swap", hashed into the domain separator of swaps.
pub open spec fn swap_domain_tag() -> Seq<u8> {
    seq![0x70u8, 0x65, 0x6e, 0x75, 0x6d, 0x62, 0x72, 0x61, 0x2e, 0x73, 0x77, 0x61, 0x70]
}

/// The domain separator of swaps: the 64-byte BLAKE2b digest of the tag,
/// reduced into `Fq`.
pub open spec fn spec_domain_separator() -> Seq<u8> {
    fq_reduce(blake2b_digest(Seq::empty(), 64, swap_domain_tag()))
}

/// The asset identifier of the swap `v`: the Poseidon hash of the fee
/// amount, the fee's asset, the claim address's diversified generator,
/// transmission key and clue key (reduced into `Fq`), and the Poseidon hash
/// of the trading pair and the two input amounts.
pub open spec fn spec_swap_asset_id(v: SwapPlaintextView) -> Seq<u8> {
    let ds = spec_domain_separator();
    poseidon_hash_6(
        ds,
        nat_to_le(v.fee_amount as nat, 32),
        v.fee_asset_id,
        spec_diversified_generator(v.diversifier),
        v.transmission_key,
        fq_reduce(v.clue_key),
        poseidon_hash_4(
            ds,
            v.asset_1,
            v.asset_2,
            nat_to_le(v.delta_1_i as nat, 32),
            nat_to_le(v.delta_2_i as nat, 32),
        ),
    )
}

/// `b` lays out the fields of `v` at fixed places: the first asset at
/// 0..32, the second at 32..64, the first input amount at 64..72, the
/// second at 72..80, the fee amount at 80..88 (amounts least significant
/// byte first), the fee's asset at 88..120, the diversifier at 120..136, the
/// transmission key at 136..168 and the clue key at 168..200.
pub open spec fn lays_out(b: Seq<u8>, v: SwapPlaintextView) -> bool {
    &&& b.len() == 200
    &&& b.subrange(0, 32) == v.asset_1
    &&& b.subrange(32, 64) == v.asset_2
    &&& b.subrange(64, 72) == u64_le_bytes(v.delta_1_i)
    &&& b.subrange(72, 80) == u64_le_bytes(v.delta_2_i)
    &&& b.subrange(80, 88) == u64_le_bytes(v.fee_amount)
    &&& b.subrange(88, 120) == v.fee_asset_id
    &&& b.subrange(120, 136) == v.diversifier
    &&& b.subrange(136, 168) == v.transmission_key
    &&& b.subrange(168, 200) == v.clue_key
}

/// The byte form of a plaintext lays out its fields at their fixed places,
/// and it is the only 200 bytes that do.
pub proof fn lemma_byte_form_layout(v: SwapPlaintextView, b: Seq<u8>)
    requires
        v.wf(),
    ensures
        lays_out(spec_swap_bytes(v), v),
        lays_out(b, v) ==> b == spec_swap_bytes(v),
{
    lemma_decode_encode(v);
    lemma_u64_le_roundtrip(v.delta_1_i);
    lemma_u64_le_roundtrip(v.delta_2_i);
    lemma_u64_le_roundtrip(v.fee_amount);
    let e = spec_swap_bytes(v);
    assert(e.subrange(0, 32) =~= v.asset_1);
    assert(e.subrange(32, 64) =~= v.asset_2);
    assert(e.subrange(64, 72) =~= u64_le_bytes(v.delta_1_i));
    assert(e.subrange(72, 80) =~= u64_le_bytes(v.delta_2_i));
    assert(e.subrange(80, 88) =~= u64_le_bytes(v.fee_amount));
    assert(e.subrange(88, 120) =~= v.fee_asset_id);
    assert(e.subrange(120, 136) =~= v.diversifier);
    assert(e.subrange(136, 168) =~= v.transmission_key);
    assert(e.subrange(168, 200) =~= v.clue_key);
    if lays_out(b, v) {
        assert forall|i: int| 0 <= i < 200 implies b[i] == e[i] by {
            if i < 32 {
                assert(b.subrange(0, 32)[i] == e.subrange(0, 32)[i]);
            } else if i < 64 {
                assert(b.subrange(32, 64)[i - 32] == e.subrange(32, 64)[i - 32]);
            } else if i < 72 {
                assert(b.subrange(64, 72)[i - 64] == e.subrange(64, 72)[i - 64]);
            } else if i < 80 {
                assert(b.subrange(72, 80)[i - 72] == e.subrange(72, 80)[i - 72]);
            } else if i < 88 {
                assert(b.subrange(80, 88)[i - 80] == e.subrange(80, 88)[i - 80]);
            } else if i < 120 {
                assert(b.subrange(88, 120)[i - 88] == e.subrange(88, 120)[i - 88]);
            } else if i < 136 {
                assert(b.subrange(120, 136)[i - 120] == e.subrange(120, 136)[i - 120]);
            } else if i < 168 {
                assert(b.subrange(136, 168)[i - 136] == e.subrange(136, 168)[i - 136]);
            } else {
                assert(b.subrange(168, 200)[i - 168] == e.subrange(168, 200)[i - 168]);
            }
        }
        assert(b =~= e);
    }
}

/// Encrypting a valid plaintext seals, under the key agreed with its claim
/// address and the nonce of swaps, exactly the 200 bytes that lay out its
/// fields at their fixed places.
pub proof fn lemma_encryption_seals_the_layout(v: SwapPlaintextView, esk: Seq<u8>, b: Seq<u8>)
    requires
        v.wf(),
        lays_out(b, v),
    ensures
        spec_encrypt_swap(v, esk) == chacha20poly1305_seal(
            spec_payload_key(
                shared_secret(esk, v.transmission_key),
                diversified_public_key(esk, spec_diversified_generator(v.diversifier)),
            ),
            spec_nonce(PayloadKind::Swap),
            b,
        ),
{
    lemma_byte_form_layout(v, b);
}

/// Opening a ciphertext whose plaintext is 200 bytes laying out the fields
/// of a valid `v` gives `v`, with every field where the layout put it.
pub proof fn lemma_decryption_reads_the_layout(key: Seq<u8>, c: Seq<u8>, b: Seq<u8>, v: SwapPlaintextView)
    requires
        chacha20poly1305_open(key, spec_nonce(PayloadKind::Swap), c) == Some(b),
        v.wf(),
        lays_out(b, v),
    ensures
        spec_open_swap(key, c) == Ok::<SwapPlaintextView, SwapError>(v),
{
    lemma_byte_form_layout(v, b);
    lemma_decode_encode(v);
}

/// The asset identifier of a swap is the rate-6 Poseidon hash, under the
/// swap domain separator, of: the fee amount, the fee's asset, the claim
/// address's diversified generator, its transmission key, its clue key
/// reduced into `Fq`, and the rate-4 Poseidon hash of the first asset, the
/// second asset, the first input amount and the second input amount, in
/// that order.
pub proof fn lemma_asset_id_inputs(v: SwapPlaintextView)
    ensures
        spec_swap_asset_id(v) == poseidon_hash_6(
            fq_reduce(blake2b_digest(Seq::empty(), 64, swap_domain_tag())),
            nat_to_le(v.fee_amount as nat, 32),
            v.fee_asset_id,
            spec_diversified_generator(v.diversifier),
            v.transmission_key,
            fq_reduce(v.clue_key),
            poseidon_hash_4(
                fq_reduce(blake2b_digest(Seq::empty(), 64, swap_domain_tag())),
                v.asset_1,
                v.asset_2,
                nat_to_le(v.delta_1_i as nat, 32),
                nat_to_le(v.delta_2_i as nat, 32),
            ),
        ),
{
}

/// Decryption agrees on the key that encryption used: when the transmission
/// key is a group element, it opens the ciphertext under the payload key of
/// the secret shared with that key and of the ephemeral public key
/// `[esk] basepoint`; otherwise it refuses for want of key agreement.
pub proof fn lemma_decryption_key(c: Seq<u8>, esk: Seq<u8>, transmission_key: Seq<u8>, basepoint: Seq<u8>)
    ensures
        decaf377_decodes(transmission_key) ==> spec_decrypt_swap(c, esk, transmission_key, basepoint)
            == spec_open_swap(
            spec_payload_key(
                shared_secret(esk, transmission_key),
                diversified_public_key(esk, basepoint),
            ),
            c,
        ),
        !decaf377_decodes(transmission_key) ==> spec_decrypt_swap(c, esk, transmission_key, basepoint)
            == Err::<SwapPlaintextView, SwapError>(SwapError::KeyAgreement),
{
}

/// With injective Poseidon hashes, two valid swaps with the same asset
/// identifier have the same trading pair, input amounts, fee amount, fee
/// asset and transmission key: the identifier separates swaps that differ
/// in any of these.
pub proof fn lemma_asset_id_separates(v: SwapPlaintextView, w: SwapPlaintextView)
    requires
        forall|d: Seq<u8>, a1: Seq<u8>, b1: Seq<u8>, c1: Seq<u8>, e1: Seq<u8>, f1: Seq<u8>, g1: Seq<u8>,
            a2: Seq<u8>, b2: Seq<u8>, c2: Seq<u8>, e2: Seq<u8>, f2: Seq<u8>, g2: Seq<u8>|
            #[trigger] poseidon_hash_6(d, a1, b1, c1, e1, f1, g1) == #[trigger] poseidon_hash_6(
                d,
                a2,
                b2,
                c2,
                e2,
                f2,
                g2,
            ) ==> a1 == a2 && b1 == b2 && c1 == c2 && e1 == e2 && f1 == f2 && g1 == g2,
        forall|d: Seq<u8>, a1: Seq<u8>, b1: Seq<u8>, c1: Seq<u8>, e1: Seq<u8>,
            a2: Seq<u8>, b2: Seq<u8>, c2: Seq<u8>, e2: Seq<u8>|
            #[trigger] poseidon_hash_4(d, a1, b1, c1, e1) == #[trigger] poseidon_hash_4(d, a2, b2, c2, e2)
                ==> a1 == a2 && b1 == b2 && c1 == c2 && e1 == e2,
        spec_swap_asset_id(v) == spec_swap_asset_id(w),
    ensures
        v.asset_1 == w.asset_1,
        v.asset_2 == w.asset_2,
        v.delta_1_i == w.delta_1_i,
        v.delta_2_i == w.delta_2_i,
        v.fee_amount == w.fee_amount,
        v.fee_asset_id == w.fee_asset_id,
        v.transmission_key == w.transmission_key,
{
    crate::field::lemma_u64_canonical(v.fee_amount);
    crate::field::lemma_u64_canonical(w.fee_amount);
    crate::field::lemma_u64_canonical(v.delta_1_i);
    crate::field::lemma_u64_canonical(w.delta_1_i);
    crate::field::lemma_u64_canonical(v.delta_2_i);
    crate::field::lemma_u64_canonical(w.delta_2_i);
}

/// The domain separator of swaps.
pub fn domain_separator() -> (ds: [u8; 32])
    ensures
        ds@ == spec_domain_separator(),
        is_fq_encoding(ds@),
{
    // "penumbra.swap"
    let tag: [u8; 13] = [0x70, 0x65, 0x6e, 0x75, 0x6d, 0x62, 0x72, 0x61, 0x2e, 0x73, 0x77, 0x61, 0x70];
    assert(tag@ =~= swap_domain_tag());
    let personal: [u8; 0] = [];
    assert(personal@ =~= Seq::<u8>::empty());
    let hash = blake2b(&personal, 64, &tag);
    proof {
        lemma_fq_reduce_canonical(hash@);
    }
    fq_from_le_bytes_mod_order(hash.as_slice())
}

/// A decoding outcome, with the plaintext taken by its view.
pub open spec fn swap_result_view(r: Result<SwapPlaintext, SwapError>) -> Result<SwapPlaintextView, SwapError> {
    match r {
        Ok(p) => Ok(p@),
        Err(e) => Err(e),
    }
}

/// The plaintext of a swap: what is exchanged, the prepaid fee for claiming
/// it, and the address that receives the outputs.
#[derive(Clone, Copy, Debug, PartialEq, Eq)]
pub struct SwapPlaintext {
    /// The pair of assets exchanged.
    pub trading_pair: TradingPair,
    /// Input amount of the first asset.
    pub delta_1_i: Amount,
    /// Input amount of the second asset.
    pub delta_2_i: Amount,
    /// Prepaid fee for claiming the swap.
    pub claim_fee: Fee,
    /// Address that receives the swap's outputs.
    pub claim_address: Address,
}

impl View for SwapPlaintext {
    type V = SwapPlaintextView;

    open spec fn view(&self) -> SwapPlaintextView {
        SwapPlaintextView {
            asset_1: self.trading_pair.asset_1.0@,
            asset_2: self.trading_pair.asset_2.0@,
            delta_1_i: self.delta_1_i.inner,
            delta_2_i: self.delta_2_i.inner,
            fee_amount: self.claim_fee.0.amount.inner,
            fee_asset_id: self.claim_fee.0.asset_id.0@,
            diversifier: self.claim_address.diversifier.0@,
            transmission_key: self.claim_address.transmission_key.0@,
            clue_key: self.claim_address.clue_key.0@,
        }
    }
}

impl SwapPlaintext {
    /// The identifiers and the transmission key are field elements.
    pub open spec fn wf(&self) -> bool {
        self@.wf()
    }

    /// The swap plaintext with the given parts.
    pub fn from_parts(
        trading_pair: TradingPair,
        delta_1_i: Amount,
        delta_2_i: Amount,
        claim_fee: Fee,
        claim_address: Address,
    ) -> (r: Result<SwapPlaintext, SwapError>)
        ensures
            r == Ok::<SwapPlaintext, SwapError>(
                SwapPlaintext { trading_pair, delta_1_i, delta_2_i, claim_fee, claim_address },
            ),
    {
        Ok(SwapPlaintext { trading_pair, delta_1_i, delta_2_i, claim_fee, claim_address })
    }

    /// The 200-byte form of the plaintext.
    pub fn to_bytes(&self) -> (r: [u8; 200])
        ensures
            r@ == spec_swap_bytes(self@),
    {
        let mut bytes = [0u8; 200];
        copy_into(&mut bytes, 0, &self.trading_pair.to_bytes());
        copy_into(&mut bytes, 64, &self.delta_1_i.to_le_bytes());
        copy_into(&mut bytes, 72, &self.delta_2_i.to_le_bytes());
        copy_into(&mut bytes, 80, &self.claim_fee.0.amount.to_le_bytes());
        copy_into(&mut bytes, 88, &self.claim_fee.0.asset_id.to_bytes());
        copy_into(&mut bytes, 120, &self.claim_address.to_bytes());
        assert(bytes@ =~= spec_swap_bytes(self@));
        bytes
    }

    /// The 200-byte form of the plaintext, taking it by value.
    pub fn into_bytes(self) -> (r: [u8; 200])
        ensures
            r@ == spec_swap_bytes(self@),
    {
        self.to_bytes()
    }

    /// The plaintext that `bytes` hold, or why they hold none.
    pub fn from_bytes(bytes: &[u8]) -> (r: Result<SwapPlaintext, SwapError>)
        ensures
            swap_result_view(r) == spec_from_swap_bytes(bytes@),
    {
        if bytes.len() != SWAP_LEN_BYTES {
            return Err(SwapError::IncorrectLength);
        }
        let tp_bytes: [u8; 64] = read_array(bytes, 0);
        let delta_1_bytes: [u8; 8] = read_array(bytes, 64);
        let delta_2_bytes: [u8; 8] = read_array(bytes, 72);
        let fee_amount_bytes: [u8; 8] = read_array(bytes, 80);
        let fee_asset_id_bytes: [u8; 32] = read_array(bytes, 88);
        let address_bytes: [u8; 80] = read_array(bytes, 120);
        proof {
            assert(tp_bytes@.subrange(0, 32) =~= bytes@.subrange(0, 32));
            assert(tp_bytes@.subrange(32, 64) =~= bytes@.subrange(32, 64));
            assert(address_bytes@.subrange(16, 48) =~= bytes@.subrange(136, 168));
        }
        let trading_pair = match TradingPair::from_bytes(tp_bytes) {
            Some(tp) => tp,
            None => return Err(SwapError::InvalidTradingPair),
        };
        let delta_1_i = Amount::from_le_bytes(delta_1_bytes);
        let delta_2_i = Amount::from_le_bytes(delta_2_bytes);
        let fee_amount = Amount::from_le_bytes(fee_amount_bytes);
        let asset_id = match Id::from_bytes(fee_asset_id_bytes) {
            Some(id) => id,
            None => return Err(SwapError::InvalidAssetId),
        };
        let claim_address = match Address::from_bytes(&address_bytes) {
            Some(a) => a,
            None => return Err(SwapError::InvalidAddress),
        };
        let r = SwapPlaintext::from_parts(
            trading_pair,
            delta_1_i,
            delta_2_i,
            Fee(Value { amount: fee_amount, asset_id }),
            claim_address,
        );
        proof {
            let p = r.unwrap();
            let v = spec_from_swap_bytes(bytes@).unwrap();
            assert(p@.asset_1 =~= v.asset_1);
            assert(p@.asset_2 =~= v.asset_2);
            assert(p@.diversifier =~= v.diversifier);
            assert(p@.transmission_key =~= v.transmission_key);
            assert(address_bytes@.subrange(48, 80) =~= bytes@.subrange(168, 200));
            assert(claim_address.spec_bytes().subrange(48, 80) =~= claim_address.clue_key.0@);
            assert(p@.clue_key =~= v.clue_key);
        }
        r
    }

    /// The generator of the claim address.
    pub fn diversified_generator(&self) -> (g: Element)
        ensures
            g.spec_encoding() == spec_diversified_generator(self@.diversifier),
    {
        self.claim_address.diversified_generator()
    }

    /// The transmission key of the claim address.
    pub fn transmission_key(&self) -> (pk: &Public)
        ensures
            *pk == self.claim_address.transmission_key,
    {
        self.claim_address.transmission_key()
    }

    /// The unique asset identifier of the swap, a hash of everything it holds.
    pub fn asset_id(&self) -> (id: Id)
        requires
            self.wf(),
        ensures
            id@ == spec_swap_asset_id(self@),
            id.wf(),
    {
        let ds = domain_separator();
        let fee_amount = fq_from_u64(self.claim_fee.0.amount.inner);
        let delta_1 = fq_from_u64(self.delta_1_i.inner);
        let delta_2 = fq_from_u64(self.delta_2_i.inner);
        let clue_key = fq_from_le_bytes_mod_order(&self.claim_address.clue_key.0);
        let g_d = self.claim_address.diversified_generator().vartime_compress_to_field();
        proof {
            lemma_u64_canonical(self.claim_fee.0.amount.inner);
            lemma_u64_canonical(self.delta_1_i.inner);
            lemma_u64_canonical(self.delta_2_i.inner);
            lemma_fq_reduce_canonical(self.claim_address.clue_key.0@);
        }
        let inner = hash_4(
            &ds,
            &self.trading_pair.asset_1.0,
            &self.trading_pair.asset_2.0,
            &delta_1,
            &delta_2,
        );
        let id = hash_6(
            &ds,
            &fee_amount,
            &self.claim_fee.0.asset_id.0,
            &g_d,
            &self.claim_address.transmission_key.0,
            &clue_key,
            &inner,
        );
        Id(id)
    }

    /// Encrypts the plaintext to its claim address with the ephemeral
    /// secret `esk`. Decrypting the result with `esk`, the claim address's
    /// transmission key and its generator gives the plaintext back.
    pub fn encrypt(&self, esk: &Secret) -> (c: SwapCiphertext)
        requires
            decaf377_decodes(self@.transmission_key),
        ensures
            c.0@ == spec_encrypt_swap(self@, esk.0@),
            self.wf() ==> spec_decrypt_swap(
                c.0@,
                esk.0@,
                self@.transmission_key,
                spec_diversified_generator(self@.diversifier),
            ) == Ok::<SwapPlaintextView, SwapError>(self@),
    {
        let epk = esk.diversified_public(&self.diversified_generator());
        let shared_secret = esk.key_agreement_with(self.transmission_key()).unwrap();
        let key = PayloadKey::derive(&shared_secret.0, &epk.0);
        let swap_plaintext = self.to_bytes();
        let encryption_result = key.encrypt(&swap_plaintext, PayloadKind::Swap);
        let ciphertext: [u8; 216] = read_array(encryption_result.as_slice(), 0);
        proof {
            assert(ciphertext@ =~= encryption_result@);
            if self.wf() {
                lemma_decode_encode(self@);
            }
        }
        SwapCiphertext(ciphertext)
    }

    /// Encrypts the plaintext to its claim address, if its transmission key
    /// is a group element; nothing otherwise.
    pub fn try_encrypt(&self, esk: &Secret) -> (c: Option<SwapCiphertext>)
        ensures
            c is Some <==> decaf377_decodes(self@.transmission_key),
            c matches Some(c) ==> c.0@ == spec_encrypt_swap(self@, esk.0@),
    {
        if crate::group::encoding_decodes(&self.claim_address.transmission_key.0) {
            Some(self.encrypt(esk))
        } else {
            None
        }
    }

    /// The plaintext that the 200 bytes hold, or why they hold none.
    pub fn from_array(bytes: [u8; 200]) -> (r: Result<SwapPlaintext, SwapError>)
        ensures
            swap_result_view(r) == spec_from_swap_bytes(bytes@),
    {
        SwapPlaintext::from_bytes(&bytes)
    }
}

/// An encrypted swap plaintext.
#[derive(Clone, Copy, Debug, PartialEq, Eq)]
pub struct SwapCiphertext(pub [u8; 216]);

impl SwapCiphertext {
    /// Decrypts with the ephemeral secret, the transmission key and the
    /// generator that the swap was encrypted to.
    pub fn decrypt(
        &self,
        esk: &Secret,
        transmission_key: &Public,
        diversified_basepoint: &Element,
    ) -> (r: Result<SwapPlaintext, SwapError>)
        ensures
            swap_result_view(r) == spec_decrypt_swap(
                self.0@,
                esk.0@,
                transmission_key.0@,
                diversified_basepoint.spec_encoding(),
            ),
    {
        let shared_secret = match esk.key_agreement_with(transmission_key) {
            Some(s) => s,
            None => return Err(SwapError::KeyAgreement),
        };
        let epk = esk.diversified_public(diversified_basepoint);
        let key = PayloadKey::derive(&shared_secret.0, &epk.0);
        self.decrypt_with_payload_key(&key)
    }

    /// Decrypts with the payload key itself.
    pub fn decrypt_with_payload_key(&self, payload_key: &PayloadKey) -> (r: Result<SwapPlaintext, SwapError>)
        ensures
            swap_result_view(r) == spec_open_swap(payload_key@, self.0@),
    {
        match payload_key.decrypt(&self.0, PayloadKind::Swap) {
            None => Err(SwapError::DecryptionFailed),
            Some(plaintext) => SwapPlaintext::from_bytes(plaintext.as_slice()),
        }
    }

    /// The ciphertext that `bytes` hold, if they have its length.
    pub fn from_bytes(bytes: &[u8]) -> (r: Option<SwapCiphertext>)
        ensures
            r is Some <==> bytes@.len() == 216,
            r matches Some(c) ==> c.0@ == bytes@,
    {
        if bytes.len() != SWAP_CIPHERTEXT_BYTES {
            return None;
        }
        let c: [u8; 216] = read_array(bytes, 0);
        assert(c@ =~= bytes@);
        Some(SwapCiphertext(c))
    }
}

} // verus!
