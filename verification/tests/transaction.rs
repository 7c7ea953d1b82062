use swap_plaintext::asset::{Fee, Id, TradingPair, Value};
use swap_plaintext::balance::{Balance, Commitment};
use swap_plaintext::keys::{Address, ClueKey, Diversifier, Public, Secret};
use swap_plaintext::note::{Note, NotePayload};
use swap_plaintext::proto;
use swap_plaintext::proto::ProtoError;
use swap_plaintext::swap::{SwapCiphertext, SwapPlaintext};
use swap_plaintext::symmetric::{PayloadKey, PayloadKind};
use swap_plaintext::transaction::{ActionView, Body, Swap, SwapProof, SwapView, TransactionPerspective};

fn id(byte: u8) -> Id {
    let mut b = [0u8; 32];
    b[0] = byte;
    Id(b)
}

fn address() -> Address {
    let d = Diversifier([2u8; 16]);
    let pk_d = Secret([3u8; 32]).diversified_public(&d.diversified_generator());
    Address::from_components(d, pk_d, ClueKey([4u8; 32])).unwrap()
}

fn plaintext() -> SwapPlaintext {
    SwapPlaintext {
        trading_pair: TradingPair { asset_1: id(1), asset_2: id(2) },
        delta_1_i: 10u64.into(),
        delta_2_i: 20u64.into(),
        claim_fee: Fee(Value { amount: 1u64.into(), asset_id: id(1) }),
        claim_address: address(),
    }
}

fn note() -> Note {
    Note {
        value: Value { amount: 7u64.into(), asset_id: id(5) },
        note_blinding: [6u8; 32],
        address: address(),
    }
}

fn note_bytes(n: &Note) -> Vec<u8> {
    let mut b = n.address.to_bytes().to_vec();
    b.extend_from_slice(&n.value.amount.to_le_bytes());
    b.extend_from_slice(&n.value.asset_id.0);
    b.extend_from_slice(&n.note_blinding);
    b
}

fn perspective(entries: &[([u8; 32], PayloadKey)]) -> TransactionPerspective {
    let mut txp = TransactionPerspective::new();
    for (c, k) in entries {
        txp.insert(*c, *k);
    }
    txp
}

fn sample_proof() -> SwapProof {
    SwapProof { swap_plaintext: plaintext(), fee_blinding: [1u8; 32], note_blinding: [2u8; 32] }
}

fn fee_commitment() -> Commitment {
    Balance::from_value(Value { amount: 1u64.into(), asset_id: id(1) }).commit_unblinded()
}

fn swap_with_key(key: &PayloadKey) -> Swap {
    let encrypted_note: [u8; 168] = key.encrypt(&note_bytes(&note()), PayloadKind::Note).try_into().unwrap();
    let ciphertext: [u8; 216] =
        key.encrypt(&plaintext().to_bytes(), PayloadKind::Swap).try_into().unwrap();
    Swap {
        proof: sample_proof(),
        body: Body {
            trading_pair: plaintext().trading_pair,
            delta_1_i: 10u64.into(),
            delta_2_i: 20u64.into(),
            fee_commitment: fee_commitment(),
            swap_nft: NotePayload {
                note_commitment: [8u8; 32],
                ephemeral_key: Public([0u8; 32]),
                encrypted_note,
            },
            swap_ciphertext: SwapCiphertext(ciphertext),
        },
    }
}

#[test]
fn visible_with_the_payload_key() {
    let key = PayloadKey([9u8; 32]);
    let swap = swap_with_key(&key);
    let txp = perspective(&[([1u8; 32], PayloadKey([0u8; 32])), ([8u8; 32], key)]);
    match swap.view_from_perspective(&txp) {
        ActionView::Swap(SwapView::Visible { swap: s, swap_nft, swap_plaintext }) => {
            assert_eq!(s, swap);
            assert_eq!(swap_nft, note());
            assert_eq!(swap_plaintext, plaintext());
        }
        other => panic!("expected a visible swap, got {:?}", other),
    }
}

#[test]
fn opaque_without_the_key() {
    let key = PayloadKey([9u8; 32]);
    let swap = swap_with_key(&key);
    let txp = perspective(&[([1u8; 32], key)]);
    assert_eq!(
        swap.view_from_perspective(&txp),
        ActionView::Swap(SwapView::Opaque { swap: swap_with_key(&key) })
    );
}

#[test]
fn opaque_with_a_wrong_key() {
    let swap = swap_with_key(&PayloadKey([9u8; 32]));
    let txp = perspective(&[([8u8; 32], PayloadKey([10u8; 32]))]);
    assert!(matches!(
        swap.view_from_perspective(&txp),
        ActionView::Swap(SwapView::Opaque { .. })
    ));
}

#[test]
fn opaque_when_the_swap_does_not_decrypt() {
    let key = PayloadKey([9u8; 32]);
    let mut swap = swap_with_key(&key);
    swap.body.swap_ciphertext.0[0] ^= 1;
    let txp = perspective(&[([8u8; 32], key)]);
    assert!(matches!(
        swap.view_from_perspective(&txp),
        ActionView::Swap(SwapView::Opaque { .. })
    ));
}

#[test]
fn balance_commitment_requires_both_inputs() {
    let swap = swap_with_key(&PayloadKey([9u8; 32]));
    let c = swap.balance_commitment();

    let elem = |c: &Commitment| {
        decaf377::Encoding(c.to_bytes()).vartime_decompress().unwrap()
    };
    let generator = |asset: &Id| {
        let ds = decaf377::Fq::from_le_bytes_mod_order(
            blake2b_simd::blake2b(b"penumbra.value.generator").as_bytes(),
        );
        let h = poseidon377::hash_1(&ds, decaf377::Fq::from_bytes_checked(&asset.0).unwrap());
        decaf377::Element::encode_to_curve(&h)
    };
    let expected = -(decaf377::Fr::from(10u64) * generator(&id(1)))
        + -(decaf377::Fr::from(20u64) * generator(&id(2)))
        + elem(&fee_commitment());
    assert_eq!(c.to_bytes(), expected.vartime_compress().0);
}

#[test]
fn balance_negation_flips_the_commitment() {
    let v = Value { amount: 5u64.into(), asset_id: id(3) };
    let provided = Balance::from_value(v);
    let required = provided.neg();
    assert!(required.required);
    assert_eq!(required.neg(), provided);
    let sum = provided.commit_unblinded().add(&required.commit_unblinded());
    assert_eq!(sum.to_bytes(), [0u8; 32]);
}

#[test]
fn body_and_swap_messages_roundtrip() {
    let swap = swap_with_key(&PayloadKey([9u8; 32]));
    let m = swap.to_proto();
    assert_eq!(m.proof, sample_proof().to_bytes().to_vec());
    assert_eq!(m.body, Some(swap.body.to_proto()));
    assert_eq!(Swap::from_proto(&m), Ok(swap_with_key(&PayloadKey([9u8; 32]))));

    let mut no_body = m.clone();
    no_body.body = None;
    assert_eq!(Swap::from_proto(&no_body), Err(ProtoError::MissingBody));

    let mut bad_proof = no_body.clone();
    bad_proof.proof.pop();
    assert_eq!(Swap::from_proto(&bad_proof), Err(ProtoError::MalformedProof));

    let mut bad = m.clone();
    bad.body.as_mut().unwrap().fee_commitment = vec![0xff; 32];
    assert_eq!(Swap::from_proto(&bad), Err(ProtoError::InvalidFeeCommitment));

    let mut bad = m.clone();
    bad.body.as_mut().unwrap().swap_nft = None;
    assert_eq!(Swap::from_proto(&bad), Err(ProtoError::MissingSwapNft));

    let mut bad = m.clone();
    bad.body.as_mut().unwrap().swap_nft.as_mut().unwrap().encrypted_note.pop();
    assert_eq!(Swap::from_proto(&bad), Err(ProtoError::InvalidNotePayload));

    let mut bad = m.clone();
    bad.body.as_mut().unwrap().swap_ciphertext.pop();
    assert_eq!(Swap::from_proto(&bad), Err(ProtoError::InvalidSwapCiphertext));

    let mut bad = m;
    bad.body.as_mut().unwrap().trading_pair = None;
    assert_eq!(Body::from_proto(bad.body.as_ref().unwrap()), Err(ProtoError::MissingTradingPair));
    let _ = proto::Swap { proof: vec![], body: None };
}

#[test]
fn malformed_proofs_are_refused() {
    let good = sample_proof().to_bytes();
    assert_eq!(SwapProof::from_bytes(&good), Some(sample_proof()));
    assert_eq!(SwapProof::from_bytes(&good[..263]), None);
    assert_eq!(SwapProof::from_bytes(&[]), None);

    let mut bad = good;
    bad[200..232].copy_from_slice(&[0xff; 32]);
    assert_eq!(SwapProof::from_bytes(&bad), None);

    let mut bad = good;
    bad[232..264].copy_from_slice(&[0xff; 32]);
    assert_eq!(SwapProof::from_bytes(&bad), None);

    let mut bad = good;
    bad[0..32].copy_from_slice(&[0xff; 32]);
    assert_eq!(SwapProof::from_bytes(&bad), None);

    // A scalar below the field modulus but above the group order is refused.
    let mut bad = good;
    bad[200..232].copy_from_slice(&(-decaf377::Fq::from(1u64)).to_bytes());
    assert_eq!(SwapProof::from_bytes(&bad), None);

    let mut m = swap_with_key(&PayloadKey([9u8; 32])).to_proto();
    m.proof = bad.to_vec();
    assert_eq!(Swap::from_proto(&m), Err(ProtoError::MalformedProof));
}

#[test]
fn zero_inputs_commit_to_the_fee() {
    let mut swap = swap_with_key(&PayloadKey([9u8; 32]));
    swap.body.delta_1_i = 0u64.into();
    swap.body.delta_2_i = 0u64.into();
    assert_eq!(swap.balance_commitment(), swap.body.fee_commitment);
}

#[test]
fn note_decryption_checks_its_parts() {
    let key = PayloadKey([9u8; 32]);
    let mut bytes = note_bytes(&note());
    bytes[120..152].copy_from_slice(&[0xff; 32]);
    let c: [u8; 168] = key.encrypt(&bytes, PayloadKind::Note).try_into().unwrap();
    assert_eq!(
        Note::decrypt_with_payload_key(&c, &key),
        Err(swap_plaintext::note::NoteError::InvalidNoteBlinding)
    );
    let good: [u8; 168] = key.encrypt(&note_bytes(&note()), PayloadKind::Note).try_into().unwrap();
    assert_eq!(Note::decrypt_with_payload_key(&good, &key), Ok(note()));
    assert_eq!(
        Note::decrypt_with_payload_key(&good, &PayloadKey([1u8; 32])),
        Err(swap_plaintext::note::NoteError::DecryptionFailed)
    );
}

#[test]
fn payload_key_derivation_is_the_personalized_hash() {
    let k = PayloadKey::derive(&[1u8; 32], &[2u8; 32]);
    let expected = blake2b_simd::Params::new()
        .personal(b"Penumbra_Payload")
        .hash_length(32)
        .hash(&[[1u8; 32], [2u8; 32]].concat());
    assert_eq!(&k.0[..], expected.as_bytes());
    assert_eq!(PayloadKind::Swap.nonce(), [2u8; 12]);
    assert_eq!(PayloadKind::Note.nonce(), [0u8; 12]);
}

#[test]
fn perspective_insert_replaces_a_key() {
    let mut txp = TransactionPerspective::new();
    assert_eq!(txp.payload_key(&[8u8; 32]), None);
    txp.insert([8u8; 32], PayloadKey([1u8; 32]));
    txp.insert([9u8; 32], PayloadKey([2u8; 32]));
    txp.insert([8u8; 32], PayloadKey([3u8; 32]));
    assert_eq!(txp.payload_key(&[8u8; 32]), Some(PayloadKey([3u8; 32])));
    assert_eq!(txp.payload_key(&[9u8; 32]), Some(PayloadKey([2u8; 32])));
    assert_eq!(txp.payload_key(&[7u8; 32]), None);

    let key = PayloadKey([9u8; 32]);
    let swap = swap_with_key(&key);
    let mut txp = perspective(&[([8u8; 32], PayloadKey([10u8; 32]))]);
    txp.insert([8u8; 32], key);
    assert!(matches!(
        swap.view_from_perspective(&txp),
        ActionView::Swap(SwapView::Visible { .. })
    ));
}

#[test]
fn payment_address_keys_decode() {
    // A transmission key made from a secret always admits encryption.
    let d = Diversifier([5u8; 16]);
    let pk_d = Secret([11u8; 32]).diversified_public(&d.diversified_generator());
    let addr = Address::from_components(d, pk_d, ClueKey([0u8; 32])).unwrap();
    let swap = SwapPlaintext { claim_address: addr, ..plaintext() };
    assert!(swap.try_encrypt(&Secret([5u8; 32])).is_some());
}
