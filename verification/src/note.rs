//! Notes, and the encrypted payloads that carry them: a swap's NFT is a
//! note, which a transaction perspective may be able to decrypt.

use vstd::prelude::*;
use crate::asset::{Amount, Id, Value};
use crate::bytes::{read_array, u64_from_le_bytes};
use crate::field::{fq_bytes_are_canonical, is_fq_encoding};
use crate::keys::{Address, Public};
use crate::symmetric::{chacha20poly1305_open, spec_nonce, PayloadKey, PayloadKind};

verus! {

/// The length of the byte form of a note.
pub const NOTE_LEN_BYTES: usize = 152;

/// The length of an encrypted note: the note and a 16-byte tag.
pub const NOTE_CIPHERTEXT_BYTES: usize = 168;

/// Why bytes do not decode to a note, or a ciphertext does not decrypt to one.
#[derive(Clone, Copy, Debug, PartialEq, Eq)]
pub enum NoteError {
    /// The ciphertext is not authentic under the key.
    DecryptionFailed,
    /// The plaintext does not have the length of a note.
    IncorrectLength,
    /// The address's transmission key is not a field element.
    InvalidAddress,
    /// The asset identifier is not a field element.
    InvalidAssetId,
    /// The blinding factor is not a field element.
    InvalidNoteBlinding,
}

/// What a note holds, as plain values.
pub struct NoteView {
    pub diversifier: Seq<u8>,
    pub transmission_key: Seq<u8>,
    pub clue_key: Seq<u8>,
    pub amount: u64,
    pub asset_id: Seq<u8>,
    pub note_blinding: Seq<u8>,
}

/// The note that the 152 bytes `b` hold (address, amount least significant
/// byte first, asset identifier, blinding factor), or why they hold none.
pub open spec fn spec_from_note_bytes(b: Seq<u8>) -> Result<NoteView, NoteError> {
    if b.len() != 152 {
        Err(NoteError::IncorrectLength)
    } else if !is_fq_encoding(b.subrange(16, 48)) {
        Err(NoteError::InvalidAddress)
    } else if !is_fq_encoding(b.subrange(88, 120)) {
        Err(NoteError::InvalidAssetId)
    } else if !is_fq_encoding(b.subrange(120, 152)) {
        Err(NoteError::InvalidNoteBlinding)
    } else {
        Ok(
            NoteView {
                diversifier: b.subrange(0, 16),
                transmission_key: b.subrange(16, 48),
                clue_key: b.subrange(48, 80),
                amount: u64_from_le_bytes(b.subrange(80, 88)),
                asset_id: b.subrange(88, 120),
                note_blinding: b.subrange(120, 152),
            },
        )
    }
}

/// What decrypting the note ciphertext `c` under `key` gives.
pub open spec fn spec_open_note(key: Seq<u8>, c: Seq<u8>) -> Result<NoteView, NoteError> {
    match chacha20poly1305_open(key, spec_nonce(PayloadKind::Note), c) {
        None => Err(NoteError::DecryptionFailed),
        Some(p) => spec_from_note_bytes(p),
    }
}

/// A note: a value, sent to an address, hidden by a blinding factor.
#[derive(Clone, Copy, Debug, PartialEq, Eq)]
pub struct Note {
    pub value: Value,
    pub note_blinding: [u8; 32],
    pub address: Address,
}

impl View for Note {
    type V = NoteView;

    open spec fn view(&self) -> NoteView {
        NoteView {
            diversifier: self.address.diversifier.0@,
            transmission_key: self.address.transmission_key.0@,
            clue_key: self.address.clue_key.0@,
            amount: self.value.amount.inner,
            asset_id: self.value.asset_id@,
            note_blinding: self.note_blinding@,
        }
    }
}

impl Note {
    /// The note that the bytes hold, or why they hold none.
    pub fn from_bytes(bytes: &[u8]) -> (r: Result<Note, NoteError>)
        ensures
            match r {
                Ok(n) => spec_from_note_bytes(bytes@) == Ok::<NoteView, NoteError>(n@),
                Err(e) => spec_from_note_bytes(bytes@) == Err::<NoteView, NoteError>(e),
            },
    {
        if bytes.len() != NOTE_LEN_BYTES {
            return Err(NoteError::IncorrectLength);
        }
        let address_bytes: [u8; 80] = read_array(bytes, 0);
        let amount_bytes: [u8; 8] = read_array(bytes, 80);
        let asset_bytes: [u8; 32] = read_array(bytes, 88);
        let note_blinding: [u8; 32] = read_array(bytes, 120);
        proof {
            assert(address_bytes@.subrange(16, 48) =~= bytes@.subrange(16, 48));
        }
        let address = match Address::from_bytes(&address_bytes) {
            Some(a) => a,
            None => return Err(NoteError::InvalidAddress),
        };
        let asset_id = match Id::from_bytes(asset_bytes) {
            Some(id) => id,
            None => return Err(NoteError::InvalidAssetId),
        };
        if !fq_bytes_are_canonical(&note_blinding) {
            return Err(NoteError::InvalidNoteBlinding);
        }
        let note = Note {
            value: Value { amount: Amount::from_le_bytes(amount_bytes), asset_id },
            note_blinding,
            address,
        };
        proof {
            let v = spec_from_note_bytes(bytes@).unwrap();
            assert(address.spec_bytes().subrange(0, 16) =~= note@.diversifier);
            assert(address.spec_bytes().subrange(16, 48) =~= note@.transmission_key);
            assert(address.spec_bytes().subrange(48, 80) =~= note@.clue_key);
            assert(note@.diversifier =~= v.diversifier);
            assert(note@.transmission_key =~= v.transmission_key);
            assert(note@.clue_key =~= v.clue_key);
        }
        Ok(note)
    }

    /// Decrypts a note ciphertext with the payload key itself.
    pub fn decrypt_with_payload_key(ciphertext: &[u8; 168], payload_key: &PayloadKey) -> (r: Result<Note, NoteError>)
        ensures
            match r {
                Ok(n) => spec_open_note(payload_key@, ciphertext@) == Ok::<NoteView, NoteError>(n@),
                Err(e) => spec_open_note(payload_key@, ciphertext@) == Err::<NoteView, NoteError>(e),
            },
    {
        match payload_key.decrypt(ciphertext, PayloadKind::Note) {
            None => Err(NoteError::DecryptionFailed),
            Some(plaintext) => Note::from_bytes(plaintext.as_slice()),
        }
    }
}

/// An encrypted note, with its commitment and the sender's ephemeral key.
#[derive(Clone, Copy, Debug, PartialEq, Eq)]
pub struct NotePayload {
    /// The commitment to the note, a field element.
    pub note_commitment: [u8; 32],
    pub ephemeral_key: Public,
    pub encrypted_note: [u8; 168],
}

} // verus!
