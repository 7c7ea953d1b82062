//! Symmetric encryption of payloads under a key derived from a key
//! agreement: ChaCha20-Poly1305 with a nonce fixed per kind of payload.

use vstd::prelude::*;
use chacha20poly1305::aead::{Aead, KeyInit};
use crate::hash::{blake2b, blake2b_digest};

verus! {

/// The ChaCha20-Poly1305 sealing of `plaintext` (ciphertext, then tag)
/// under `key` and `nonce`, with no associated data.
pub uninterp spec fn chacha20poly1305_seal(key: Seq<u8>, nonce: Seq<u8>, plaintext: Seq<u8>) -> Seq<u8>;

/// The ChaCha20-Poly1305 opening of `ciphertext` under `key` and `nonce`,
/// with no associated data: the plaintext, or nothing if the ciphertext is
/// not authentic.
pub uninterp spec fn chacha20poly1305_open(key: Seq<u8>, nonce: Seq<u8>, ciphertext: Seq<u8>) -> Option<Seq<u8>>;

/// The longest plaintext that ChaCha20-Poly1305 seals: its block counter
/// allows fewer than `2^32 - 1` blocks of 64 bytes.
pub open spec fn max_sealed_len() -> nat {
    274877906879nat
}

/// Seals `plaintext`.
///
/// Calls `Aead::encrypt` of `chacha20poly1305::ChaCha20Poly1305`. Its
/// source fails only when the plaintext reaches `2^32 - 1` blocks, which
/// the contract excludes. The contract names the ciphertext, states that it
/// is the plaintext's length plus the 16-byte tag, and that opening it under
/// the same key and nonce gives back the plaintext, as an AEAD promises.
#[verifier::external_body]
pub(crate) fn aead_seal(key: &[u8; 32], nonce: &[u8; 12], plaintext: &[u8]) -> (c: Vec<u8>)
    requires
        plaintext@.len() <= max_sealed_len(),
    ensures
        c@ == chacha20poly1305_seal(key@, nonce@, plaintext@),
        c@.len() == plaintext@.len() + 16,
        chacha20poly1305_open(key@, nonce@, c@) == Some(plaintext@),
{
    let cipher = chacha20poly1305::ChaCha20Poly1305::new(key.into());
    cipher.encrypt(nonce.into(), plaintext).expect("plaintext within the length limit")
}

/// Opens `ciphertext`.
///
/// Calls `Aead::decrypt` of `chacha20poly1305::ChaCha20Poly1305`; the
/// contract names the outcome, a failure included.
#[verifier::external_body]
pub(crate) fn aead_open(key: &[u8; 32], nonce: &[u8; 12], ciphertext: &[u8]) -> (p: Option<Vec<u8>>)
    ensures
        match p {
            Some(v) => chacha20poly1305_open(key@, nonce@, ciphertext@) == Some(v@),
            None => chacha20poly1305_open(key@, nonce@, ciphertext@) is None,
        },
{
    let cipher = chacha20poly1305::ChaCha20Poly1305::new(key.into());
    cipher.decrypt(nonce.into(), ciphertext).ok()
}

/// What a payload holds; each kind is encrypted under its own nonce.
#[derive(Clone, Copy, Debug, PartialEq, Eq)]
pub enum PayloadKind {
    Note,
    MemoKey,
    Swap,
    Memo,
}

/// The nonce of each kind: twelve copies of the kind's number.
pub open spec fn spec_nonce(kind: PayloadKind) -> Seq<u8> {
    let b: u8 = match kind {
        PayloadKind::Note => 0,
        PayloadKind::MemoKey => 1,
        PayloadKind::Swap => 2,
        PayloadKind::Memo => 3,
    };
    Seq::new(12, |i: int| b)
}

impl PayloadKind {
    /// The nonce that payloads of this kind are encrypted under.
    pub fn nonce(&self) -> (n: [u8; 12])
        ensures
            n@ == spec_nonce(*self),
    {
        let n = match self {
            PayloadKind::Note => [0u8; 12],
            PayloadKind::MemoKey => [1u8; 12],
            PayloadKind::Swap => [2u8; 12],
            PayloadKind::Memo => [3u8; 12],
        };
        assert(n@ =~= spec_nonce(*self));
        n
    }
}

/// The personalization of the key derivation, "Penumbra_Payload".
pub open spec fn payload_personalization() -> Seq<u8> {
    seq![
        0x50u8, 0x65, 0x6e, 0x75, 0x6d, 0x62, 0x72, 0x61,
        0x5f, 0x50, 0x61, 0x79, 0x6c, 0x6f, 0x61, 0x64,
    ]
}

/// The payload key that a shared secret and an ephemeral public key give:
/// the 32-byte BLAKE2b digest, personalized, of the two concatenated.
pub open spec fn spec_payload_key(shared_secret: Seq<u8>, epk: Seq<u8>) -> Seq<u8> {
    blake2b_digest(payload_personalization(), 32, shared_secret + epk)
}

/// A key for encrypting payloads.
#[derive(Clone, Copy, Debug, PartialEq, Eq)]
pub struct PayloadKey(pub [u8; 32]);

impl View for PayloadKey {
    type V = Seq<u8>;

    open spec fn view(&self) -> Seq<u8> {
        self.0@
    }
}

impl PayloadKey {
    /// Derives the payload key from a shared secret and an ephemeral public key.
    pub fn derive(shared_secret: &[u8; 32], epk: &[u8; 32]) -> (k: PayloadKey)
        ensures
            k@ == spec_payload_key(shared_secret@, epk@),
    {
        // "Penumbra_Payload"
        let personal: [u8; 16] = [
            0x50, 0x65, 0x6e, 0x75, 0x6d, 0x62, 0x72, 0x61,
            0x5f, 0x50, 0x61, 0x79, 0x6c, 0x6f, 0x61, 0x64,
        ];
        assert(personal@ =~= payload_personalization());
        let mut data: Vec<u8> = Vec::new();
        data.extend_from_slice(shared_secret);
        data.extend_from_slice(epk);
        assert(data@ =~= shared_secret@ + epk@);
        let h = blake2b(&personal, 32, data.as_slice());
        let mut key = [0u8; 32];
        let mut i: usize = 0;
        while i < 32
            invariant
                h@.len() == 32,
                i <= 32,
                forall|j: int| 0 <= j < i ==> #[trigger] key@[j] == h@[j],
            decreases 32 - i,
        {
            key[i] = h[i];
            i = i + 1;
        }
        assert(key@ =~= h@);
        PayloadKey(key)
    }

    /// Encrypts `plaintext` as a payload of the given kind.
    pub fn encrypt(&self, plaintext: &[u8], kind: PayloadKind) -> (c: Vec<u8>)
        requires
            plaintext@.len() <= max_sealed_len(),
        ensures
            c@ == chacha20poly1305_seal(self@, spec_nonce(kind), plaintext@),
            c@.len() == plaintext@.len() + 16,
            chacha20poly1305_open(self@, spec_nonce(kind), c@) == Some(plaintext@),
    {
        let nonce = kind.nonce();
        aead_seal(&self.0, &nonce, plaintext)
    }

    /// Decrypts `ciphertext` as a payload of the given kind.
    pub fn decrypt(&self, ciphertext: &[u8], kind: PayloadKind) -> (p: Option<Vec<u8>>)
        ensures
            match p {
                Some(v) => chacha20poly1305_open(self@, spec_nonce(kind), ciphertext@) == Some(v@),
                None => chacha20poly1305_open(self@, spec_nonce(kind), ciphertext@) is None,
            },
    {
        let nonce = kind.nonce();
        aead_open(&self.0, &nonce, ciphertext)
    }
}

} // verus!
