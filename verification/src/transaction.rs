//! The swap action of a transaction: its public body, the balance it
//! commits to, and what a viewer that holds payload keys can see of it.

use vstd::prelude::*;
use crate::asset::{Amount, TradingPair, Value};
use crate::balance::{spec_balance_commitment, spec_value_generator, Balance, Commitment};
use crate::bytes::{bytes_eq, copy_into, read_array};
use crate::field::{fq_bytes_are_canonical, fr_bytes_are_canonical, is_fq_encoding, is_fr_encoding};
use crate::group::{decaf377_multiple, decaf377_negation, decaf377_sum};
use crate::note::{spec_open_note, Note, NotePayload, NoteView};
use crate::swap::{lemma_decode_encode, lemma_encode_decode, lemma_swap_bytes_injective, lemma_view_determines, spec_from_swap_bytes, spec_open_swap, spec_swap_bytes, SwapCiphertext, SwapPlaintext, SwapPlaintextView};
use crate::symmetric::PayloadKey;

verus! {

/// The length of the byte form of a swap proof.
pub const SWAP_PROOF_LEN_BYTES: usize = 264;

/// Whether `b` is the byte form of a swap proof: a swap plaintext's 200
/// bytes that decode, then the fee blinding factor (a scalar) and the NFT's
/// note blinding factor (a field element), 32 bytes each.
pub open spec fn spec_proof_bytes_ok(b: Seq<u8>) -> bool {
    &&& b.len() == 264
    &&& spec_from_swap_bytes(b.subrange(0, 200)) is Ok
    &&& is_fr_encoding(b.subrange(200, 232))
    &&& is_fq_encoding(b.subrange(232, 264))
}

/// The proof that a swap is a valid state change, in transparent form: what
/// the swap commits to, and the blinding factors of its fee commitment and
/// of its NFT note.
#[derive(Clone, Copy, Debug, PartialEq, Eq)]
pub struct SwapProof {
    pub swap_plaintext: SwapPlaintext,
    pub fee_blinding: [u8; 32],
    pub note_blinding: [u8; 32],
}

impl SwapProof {
    /// The plaintext is valid and both blinding factors are canonical.
    pub open spec fn wf(&self) -> bool {
        &&& self.swap_plaintext.wf()
        &&& is_fr_encoding(self.fee_blinding@)
        &&& is_fq_encoding(self.note_blinding@)
    }

    /// The 264-byte form: the plaintext's bytes, then the fee blinding
    /// factor, then the note blinding factor.
    pub open spec fn spec_bytes(&self) -> Seq<u8> {
        spec_swap_bytes(self.swap_plaintext@) + self.fee_blinding@ + self.note_blinding@
    }

    /// The byte form of the proof.
    pub fn to_bytes(&self) -> (r: [u8; 264])
        ensures
            r@ == self.spec_bytes(),
    {
        let mut out = [0u8; 264];
        copy_into(&mut out, 0, &self.swap_plaintext.to_bytes());
        copy_into(&mut out, 200, &self.fee_blinding);
        copy_into(&mut out, 232, &self.note_blinding);
        assert(out@ =~= self.spec_bytes());
        out
    }

    /// The proof that `bytes` hold, if they hold one.
    pub fn from_bytes(bytes: &[u8]) -> (r: Option<SwapProof>)
        ensures
            r is Some <==> spec_proof_bytes_ok(bytes@),
            r matches Some(p) ==> p.spec_bytes() == bytes@ && p.wf(),
    {
        if bytes.len() != SWAP_PROOF_LEN_BYTES {
            return None;
        }
        let plaintext_bytes: [u8; 200] = read_array(bytes, 0);
        let fee_blinding: [u8; 32] = read_array(bytes, 200);
        let note_blinding: [u8; 32] = read_array(bytes, 232);
        let swap_plaintext = match SwapPlaintext::from_array(plaintext_bytes) {
            Ok(p) => p,
            Err(_) => return None,
        };
        if !fr_bytes_are_canonical(&fee_blinding) || !fq_bytes_are_canonical(&note_blinding) {
            return None;
        }
        let p = SwapProof { swap_plaintext, fee_blinding, note_blinding };
        proof {
            lemma_encode_decode(plaintext_bytes@);
            assert(p.spec_bytes() =~= bytes@);
        }
        Some(p)
    }
}

/// A swap proof is determined by its byte form.
pub proof fn lemma_proof_bytes_determine(p: SwapProof, q: SwapProof)
    requires
        p.wf(),
        q.wf(),
        p.spec_bytes() == q.spec_bytes(),
    ensures
        p == q,
{
    lemma_decode_encode(p.swap_plaintext@);
    lemma_decode_encode(q.swap_plaintext@);
    assert(p.spec_bytes().subrange(0, 200) =~= spec_swap_bytes(p.swap_plaintext@));
    assert(q.spec_bytes().subrange(0, 200) =~= spec_swap_bytes(q.swap_plaintext@));
    lemma_swap_bytes_injective(p.swap_plaintext@, q.swap_plaintext@);
    lemma_view_determines(p.swap_plaintext, q.swap_plaintext);
    assert(p.fee_blinding =~= q.fee_blinding) by {
        assert(p.spec_bytes().subrange(200, 232) =~= p.fee_blinding@);
        assert(q.spec_bytes().subrange(200, 232) =~= q.fee_blinding@);
    }
    assert(p.note_blinding =~= q.note_blinding) by {
        assert(p.spec_bytes().subrange(232, 264) =~= p.note_blinding@);
        assert(q.spec_bytes().subrange(232, 264) =~= q.note_blinding@);
    }
}

/// The public part of a swap.
#[derive(Clone, Copy, Debug, PartialEq, Eq)]
pub struct Body {
    pub trading_pair: TradingPair,
    /// Input amount of the first asset, in the clear.
    pub delta_1_i: Amount,
    /// Input amount of the second asset, in the clear.
    pub delta_2_i: Amount,
    /// Commitment to the prepaid claim fee.
    pub fee_commitment: Commitment,
    /// The swap's NFT, an encrypted note.
    pub swap_nft: NotePayload,
    /// The encrypted swap plaintext.
    pub swap_ciphertext: SwapCiphertext,
}

impl Body {
    /// The asset identifiers and the NFT's commitment are field elements.
    pub open spec fn wf(&self) -> bool {
        self.trading_pair.wf() && is_fq_encoding(self.swap_nft.note_commitment@)
    }
}

/// A swap action: a proof and a body.
#[derive(Clone, Copy, Debug, PartialEq, Eq)]
pub struct Swap {
    pub proof: SwapProof,
    pub body: Body,
}

impl Swap {
    /// The proof and the body are valid.
    pub open spec fn wf(&self) -> bool {
        self.proof.wf() && self.body.wf()
    }
}

/// The balance commitment of a swap: it requires both input amounts, and
/// adds the fee commitment.
pub open spec fn spec_swap_balance_commitment(body: Body) -> Seq<u8> {
    let c1 = spec_balance_commitment(
        Balance {
            required: true,
            value: Value { amount: body.delta_1_i, asset_id: body.trading_pair.asset_1 },
        },
    );
    let c2 = spec_balance_commitment(
        Balance {
            required: true,
            value: Value { amount: body.delta_2_i, asset_id: body.trading_pair.asset_2 },
        },
    );
    decaf377_sum(decaf377_sum(c1, c2), body.fee_commitment.0.spec_encoding())
}

/// A swap's balance commitment subtracts both inputs, whatever their
/// amounts: it is the fee commitment added to the negations of the first
/// amount times the first asset's generator and of the second amount times
/// the second asset's generator.
pub proof fn lemma_balance_commitment_subtracts_inputs(body: Body)
    ensures
        spec_swap_balance_commitment(body) == decaf377_sum(
            decaf377_sum(
                decaf377_negation(
                    decaf377_multiple(
                        body.delta_1_i.inner,
                        spec_value_generator(body.trading_pair.asset_1@),
                    ),
                ),
                decaf377_negation(
                    decaf377_multiple(
                        body.delta_2_i.inner,
                        spec_value_generator(body.trading_pair.asset_2@),
                    ),
                ),
            ),
            body.fee_commitment.0.spec_encoding(),
        ),
{
}

/// The payload key that the first entry for `commitment` holds, if any.
pub open spec fn spec_payload_key_for(keys: Seq<([u8; 32], PayloadKey)>, commitment: Seq<u8>) -> Option<PayloadKey>
    decreases keys.len(),
{
    if keys.len() == 0 {
        None
    } else if keys[0].0@ == commitment {
        Some(keys[0].1)
    } else {
        spec_payload_key_for(keys.drop_first(), commitment)
    }
}

/// What the viewer `txp` sees of the swap `body`: the NFT note and the
/// plaintext, if it holds the key of the NFT's commitment and both decrypt
/// under it; nothing otherwise.
pub open spec fn spec_swap_visible(body: Body, txp: TransactionPerspective) -> Option<(NoteView, SwapPlaintextView)> {
    match txp.key_for(body.swap_nft.note_commitment@) {
        None => None,
        Some(k) => match (
            spec_open_note(k@, body.swap_nft.encrypted_note@),
            spec_open_swap(k@, body.swap_ciphertext.0@),
        ) {
            (Ok(n), Ok(p)) => Some((n, p)),
            _ => None,
        },
    }
}

/// No note commitment occurs twice among `keys`.
pub open spec fn keys_distinct(keys: Seq<([u8; 32], PayloadKey)>) -> bool {
    forall|i: int, j: int|
        0 <= i < keys.len() && 0 <= j < keys.len() && i != j ==> #[trigger] keys[i].0@
            != #[trigger] keys[j].0@
}

/// With distinct commitments, the key found for `x` is the key of the entry
/// whose commitment is `x`, and none is found when no entry has it.
pub proof fn lemma_payload_key_for(keys: Seq<([u8; 32], PayloadKey)>, x: Seq<u8>)
    requires
        keys_distinct(keys),
    ensures
        forall|i: int|
            0 <= i < keys.len() && #[trigger] keys[i].0@ == x ==> spec_payload_key_for(keys, x)
                == Some(keys[i].1),
        (forall|i: int| 0 <= i < keys.len() ==> #[trigger] keys[i].0@ != x)
            ==> spec_payload_key_for(keys, x) is None,
    decreases keys.len(),
{
    if keys.len() > 0 {
        let rest = keys.drop_first();
        assert forall|i: int, j: int|
            0 <= i < rest.len() && 0 <= j < rest.len() && i != j implies #[trigger] rest[i].0@
            != #[trigger] rest[j].0@ by {
            assert(rest[i] == keys[i + 1] && rest[j] == keys[j + 1]);
        }
        lemma_payload_key_for(rest, x);
        assert forall|i: int|
            0 <= i < keys.len() && #[trigger] keys[i].0@ == x implies spec_payload_key_for(keys, x)
            == Some(keys[i].1) by {
            if i > 0 {
                assert(keys[0].0@ != keys[i].0@);
                assert(rest[i - 1] == keys[i]);
            }
        }
        if forall|i: int| 0 <= i < keys.len() ==> #[trigger] keys[i].0@ != x {
            assert forall|i: int| 0 <= i < rest.len() implies #[trigger] rest[i].0@ != x by {
                assert(rest[i] == keys[i + 1]);
            }
            assert(keys[0].0@ != x);
        }
    }
}

/// What a transaction's viewer knows: the payload key of each note
/// commitment it can decrypt, at most one per commitment.
pub struct TransactionPerspective {
    payload_keys: Vec<([u8; 32], PayloadKey)>,
}

impl TransactionPerspective {
    #[verifier::type_invariant]
    spec fn distinct(self) -> bool {
        keys_distinct(self.payload_keys@)
    }

    /// The payload key that the viewer holds for the note commitment `x`.
    pub closed spec fn key_for(&self, x: Seq<u8>) -> Option<PayloadKey> {
        spec_payload_key_for(self.payload_keys@, x)
    }

    /// The viewer that holds no key.
    pub fn new() -> (t: TransactionPerspective)
        ensures
            forall|x: Seq<u8>| #[trigger] t.key_for(x) is None,
    {
        TransactionPerspective { payload_keys: Vec::new() }
    }

    /// Adds, or replaces, the key of the note commitment `commitment`; the
    /// keys of the other commitments stay.
    pub fn insert(&mut self, commitment: [u8; 32], key: PayloadKey)
        ensures
            forall|x: Seq<u8>|
                #[trigger] final(self).key_for(x) == if x == commitment@ {
                    Some(key)
                } else {
                    old(self).key_for(x)
                },
    {
        proof {
            use_type_invariant(&*self);
        }
        let mut keys: Vec<([u8; 32], PayloadKey)> = Vec::new();
        std::mem::swap(&mut keys, &mut self.payload_keys);
        let ghost s = keys@;
        let mut i: usize = 0;
        let mut found = false;
        while i < keys.len()
            invariant_except_break
                !found,
            invariant
                keys@ == s,
                i <= s.len(),
                forall|j: int| 0 <= j < i ==> #[trigger] s[j].0@ != commitment@,
            ensures
                keys@ == s,
                found ==> i < s.len() && s[i as int].0@ == commitment@,
                !found ==> forall|j: int| 0 <= j < s.len() ==> #[trigger] s[j].0@ != commitment@,
            decreases s.len() - i,
        {
            if bytes_eq(&keys[i].0, &commitment) {
                found = true;
                break;
            }
            i = i + 1;
        }
        if found {
            keys.set(i, (commitment, key));
        } else {
            keys.push((commitment, key));
        }
        let ghost t = keys@;
        proof {
            assert(keys_distinct(t)) by {
                assert forall|a: int, b: int|
                    0 <= a < t.len() && 0 <= b < t.len() && a != b implies #[trigger] t[a].0@
                    != #[trigger] t[b].0@ by {
                    if found {
                        if a != i && b != i {
                            assert(t[a] == s[a] && t[b] == s[b]);
                        } else if a == i {
                            assert(t[b] == s[b]);
                            assert(s[a].0@ == commitment@);
                        } else {
                            assert(t[a] == s[a]);
                            assert(s[b].0@ == commitment@);
                        }
                    } else {
                        if a < s.len() && b < s.len() {
                            assert(t[a] == s[a] && t[b] == s[b]);
                        } else if a < s.len() {
                            assert(t[a] == s[a]);
                        } else {
                            assert(t[b] == s[b]);
                        }
                    }
                }
            }
            assert forall|x: Seq<u8>|
                spec_payload_key_for(t, x) == if x == commitment@ {
                    Some(key)
                } else {
                    spec_payload_key_for(s, x)
                } by {
                lemma_payload_key_for(s, x);
                lemma_payload_key_for(t, x);
                let n: int = if found { i as int } else { s.len() as int };
                assert(t[n] == (commitment, key));
                assert(t[n].0@ == commitment@);
                if x != commitment@ {
                    if exists|j: int| 0 <= j < s.len() && #[trigger] s[j].0@ == x {
                        let j = choose|j: int| 0 <= j < s.len() && #[trigger] s[j].0@ == x;
                        assert(j != n);
                        assert(t[j] == s[j]);
                        assert(t[j].0@ == x);
                    } else {
                        assert forall|j: int| 0 <= j < t.len() implies #[trigger] t[j].0@ != x by {
                            if j != n {
                                assert(t[j] == s[j]);
                            }
                        }
                    }
                }
            }
        }
        self.payload_keys = keys;
    }

    /// The payload key of the note commitment, if the viewer has it.
    pub fn payload_key(&self, commitment: &[u8; 32]) -> (k: Option<PayloadKey>)
        ensures
            k == self.key_for(commitment@),
    {
        let mut i: usize = 0;
        assert(self.payload_keys@.skip(0) =~= self.payload_keys@);
        while i < self.payload_keys.len()
            invariant
                i <= self.payload_keys@.len(),
                spec_payload_key_for(self.payload_keys@, commitment@) == spec_payload_key_for(
                    self.payload_keys@.skip(i as int),
                    commitment@,
                ),
            decreases self.payload_keys@.len() - i,
        {
            let ghost rest = self.payload_keys@.skip(i as int);
            assert(rest[0] == self.payload_keys@[i as int]);
            assert(rest.drop_first() =~= self.payload_keys@.skip(i + 1));
            if bytes_eq(&self.payload_keys[i].0, commitment) {
                return Some(self.payload_keys[i].1);
            }
            i = i + 1;
        }
        None
    }
}

/// A view of a swap: with its NFT note and plaintext, or without.
#[derive(Clone, Copy, Debug, PartialEq, Eq)]
pub enum SwapView {
    Visible { swap: Swap, swap_nft: Note, swap_plaintext: SwapPlaintext },
    Opaque { swap: Swap },
}

/// A view of an action of a transaction.
#[derive(Clone, Copy, Debug, PartialEq, Eq)]
pub enum ActionView {
    Swap(SwapView),
}

impl Swap {
    /// A copy of the swap.
    pub fn to_owned(&self) -> (s: Swap)
        ensures
            s == *self,
    {
        *self
    }

    /// The commitment to the value that this swap contributes to its
    /// transaction: both input amounts are required, each committed with a
    /// zero blinding factor, and the fee commitment is added.
    pub fn balance_commitment(&self) -> (c: Commitment)
        requires
            self.body.trading_pair.wf(),
        ensures
            c.0.spec_encoding() == spec_swap_balance_commitment(self.body),
            self.body.delta_1_i.inner == 0 && self.body.delta_2_i.inner == 0 ==> c.0.spec_encoding()
                == self.body.fee_commitment.0.spec_encoding(),
    {
        let input_1 = Value { amount: self.body.delta_1_i, asset_id: self.body.trading_pair.asset_1() };
        let input_1 = Balance::from_value(input_1).neg();
        let commitment_input_1 = input_1.commit_unblinded();
        let input_2 = Value { amount: self.body.delta_2_i, asset_id: self.body.trading_pair.asset_2() };
        let input_2 = Balance::from_value(input_2).neg();
        let commitment_input_2 = input_2.commit_unblinded();
        commitment_input_1.add(&commitment_input_2).add(&self.body.fee_commitment)
    }

    /// What the viewer `txp` sees of this swap.
    pub fn view_from_perspective(&self, txp: &TransactionPerspective) -> (v: ActionView)
        ensures
            match v {
                ActionView::Swap(SwapView::Visible { swap, swap_nft, swap_plaintext }) => swap == *self
                    && spec_swap_visible(self.body, *txp) == Some(
                    (swap_nft@, swap_plaintext@),
                ),
                ActionView::Swap(SwapView::Opaque { swap }) => swap == *self
                    && spec_swap_visible(self.body, *txp) is None,
            },
    {
        let note_commitment = self.body.swap_nft.note_commitment;
        let swap_view = match txp.payload_key(&note_commitment) {
            Some(payload_key) => {
                let swap_nft = Note::decrypt_with_payload_key(
                    &self.body.swap_nft.encrypted_note,
                    &payload_key,
                );
                let swap_plaintext = self.body.swap_ciphertext.decrypt_with_payload_key(&payload_key);
                match (swap_nft, swap_plaintext) {
                    (Ok(swap_nft), Ok(swap_plaintext)) => SwapView::Visible {
                        swap: self.to_owned(),
                        swap_nft,
                        swap_plaintext,
                    },
                    _ => SwapView::Opaque { swap: self.to_owned() },
                }
            },
            None => SwapView::Opaque { swap: self.to_owned() },
        };
        ActionView::Swap(swap_view)
    }
}

} // verus!
