use chacha20poly1305::aead::{Aead, KeyInit};
use rand_core::OsRng;
use swap_plaintext::asset::{Amount, Fee, Id, TradingPair, Value};
use swap_plaintext::keys::{Address, ClueKey, Diversifier, Public, Secret};
use swap_plaintext::swap::{SwapCiphertext, SwapError, SwapPlaintext};

/// The asset identifier of a base denomination.
fn asset_id(denom: &str) -> Id {
    let hash = blake2b_simd::Params::default()
        .personal(b"Penumbra_AssetID")
        .hash(denom.as_bytes());
    Id(decaf377::Fq::from_le_bytes_mod_order(hash.as_bytes()).to_bytes())
}

/// An address of the incoming viewing key `ivk`, with diversifier `d`.
fn payment_address(ivk: [u8; 32], d: [u8; 16]) -> Address {
    let diversifier = Diversifier(d);
    let g_d = diversifier.diversified_generator();
    let pk_d = Secret(ivk).diversified_public(&g_d);
    Address::from_components(diversifier, pk_d, ClueKey([7u8; 32])).expect("valid address")
}

fn random_scalar() -> [u8; 32] {
    decaf377_ka::Secret::new(&mut OsRng).to_bytes()
}

fn sample_swap(dest: Address) -> SwapPlaintext {
    let trading_pair = TradingPair {
        asset_1: asset_id("upenumbra"),
        asset_2: asset_id("nala"),
    };
    SwapPlaintext {
        trading_pair,
        delta_1_i: 100000u64.into(),
        delta_2_i: 1u64.into(),
        claim_fee: Fee(Value {
            amount: 3u64.into(),
            asset_id: asset_id("upenumbra"),
        }),
        claim_address: dest,
    }
}

#[test]
fn swap_encryption_and_decryption() {
    let dest = payment_address(random_scalar(), [0u8; 16]);
    let swap = sample_swap(dest);
    let esk = Secret(random_scalar());

    let ciphertext = swap.encrypt(&esk);
    let diversified_basepoint = dest.diversified_generator();
    let transmission_key = swap.transmission_key();
    let plaintext =
        SwapCiphertext::decrypt(&ciphertext, &esk, transmission_key, &diversified_basepoint)
            .expect("can decrypt swap");

    assert_eq!(plaintext, swap);
}

fn fixed_swap() -> SwapPlaintext {
    sample_swap(payment_address([9u8; 32], [1u8; 16]))
}

#[test]
fn bytes_have_the_documented_layout() {
    let swap = fixed_swap();
    let bytes = swap.to_bytes();
    assert_eq!(&bytes[0..32], &swap.trading_pair.asset_1.0[..]);
    assert_eq!(&bytes[32..64], &swap.trading_pair.asset_2.0[..]);
    assert_eq!(&bytes[64..72], &100000u64.to_le_bytes()[..]);
    assert_eq!(&bytes[72..80], &1u64.to_le_bytes()[..]);
    assert_eq!(&bytes[80..88], &3u64.to_le_bytes()[..]);
    assert_eq!(&bytes[88..120], &swap.claim_fee.0.asset_id.0[..]);
    assert_eq!(&bytes[120..136], &[1u8; 16][..]);
    assert_eq!(&bytes[136..168], &swap.claim_address.transmission_key.0[..]);
    assert_eq!(&bytes[168..200], &[7u8; 32][..]);
}

#[test]
fn bytes_roundtrip() {
    let swap = fixed_swap();
    let bytes = swap.to_bytes();
    assert_eq!(SwapPlaintext::from_bytes(&bytes[..]), Ok(swap));
    assert_eq!(SwapPlaintext::from_array(bytes), Ok(swap));
    assert_eq!(SwapPlaintext::from_array(bytes).unwrap().to_bytes(), bytes);
    assert_eq!(swap.into_bytes(), bytes);
}

#[test]
fn wrong_length_is_refused() {
    let bytes = fixed_swap().to_bytes();
    assert_eq!(SwapPlaintext::from_bytes(&bytes[..199]), Err(SwapError::IncorrectLength));
    let mut longer = bytes.to_vec();
    longer.push(0);
    assert_eq!(SwapPlaintext::from_bytes(&longer), Err(SwapError::IncorrectLength));
    assert_eq!(SwapPlaintext::from_bytes(&[]), Err(SwapError::IncorrectLength));
}

#[test]
fn non_canonical_parts_are_refused_in_order() {
    let bytes = fixed_swap().to_bytes();

    let mut b = bytes;
    b[32..64].copy_from_slice(&[0xffu8; 32]);
    b[88..120].copy_from_slice(&[0xffu8; 32]);
    assert_eq!(SwapPlaintext::from_bytes(&b[..]), Err(SwapError::InvalidTradingPair));

    let mut b = bytes;
    b[88..120].copy_from_slice(&[0xffu8; 32]);
    b[136..168].copy_from_slice(&[0xffu8; 32]);
    assert_eq!(SwapPlaintext::from_bytes(&b[..]), Err(SwapError::InvalidAssetId));

    let mut b = bytes;
    b[136..168].copy_from_slice(&[0xffu8; 32]);
    assert_eq!(SwapPlaintext::from_bytes(&b[..]), Err(SwapError::InvalidAddress));
}

#[test]
fn modulus_is_the_first_non_canonical_value() {
    // q - 1 and q, little-endian.
    let q: [u8; 32] = decaf377::Fq::from(0u64).to_bytes();
    assert_eq!(q, [0u8; 32]);
    let minus_one = (-decaf377::Fq::from(1u64)).to_bytes();
    let mut modulus = minus_one;
    modulus[0] += 1;
    assert!(Id::from_bytes(minus_one).is_some());
    assert!(Id::from_bytes(modulus).is_none());
}

#[test]
fn from_parts_keeps_the_parts() {
    let swap = fixed_swap();
    let rebuilt = SwapPlaintext::from_parts(
        swap.trading_pair,
        swap.delta_1_i,
        swap.delta_2_i,
        swap.claim_fee,
        swap.claim_address,
    );
    assert_eq!(rebuilt, Ok(swap));
}

#[test]
fn amounts_are_little_endian() {
    let a = Amount::from(0x0102_0304_0506_0708u64);
    assert_eq!(a.to_le_bytes(), [8, 7, 6, 5, 4, 3, 2, 1]);
    assert_eq!(Amount::from_le_bytes([8, 7, 6, 5, 4, 3, 2, 1]), a);
    assert_eq!(a.value(), 0x0102_0304_0506_0708u64);
}

#[test]
fn trading_pair_bytes_roundtrip() {
    let tp = fixed_swap().trading_pair;
    let bytes = tp.to_bytes();
    assert_eq!(&bytes[..32], &tp.asset_1().0[..]);
    assert_eq!(TradingPair::from_bytes(bytes), Some(tp));
    let mut bad = bytes;
    bad[0..32].copy_from_slice(&[0xffu8; 32]);
    assert_eq!(TradingPair::from_bytes(bad), None);
}

#[test]
fn address_bytes_roundtrip() {
    let a = payment_address([9u8; 32], [1u8; 16]);
    let bytes = a.to_bytes();
    assert_eq!(Address::from_bytes(&bytes), Some(a));
    let mut bad = bytes;
    bad[16..48].copy_from_slice(&[0xffu8; 32]);
    assert_eq!(Address::from_bytes(&bad), None);
    assert_eq!(
        Address::from_components(Diversifier([1u8; 16]), Public([0xffu8; 32]), ClueKey([0u8; 32])),
        None
    );
}

#[test]
fn encryption_matches_the_cipher() {
    let swap = fixed_swap();
    let esk = Secret([5u8; 32]);
    let ciphertext = swap.encrypt(&esk);

    // Recompute the key and the sealing with the outside crates directly.
    let sk = decaf377_ka::Secret::new_from_field(decaf377::Fr::from_le_bytes_mod_order(&[5u8; 32]));
    let g_d = decaf377::Encoding(swap.diversified_generator().vartime_compress())
        .vartime_decompress()
        .unwrap();
    let epk = sk.diversified_public(&g_d);
    let ss = sk
        .key_agreement_with(&decaf377_ka::Public(swap.transmission_key().0))
        .unwrap();
    let key = blake2b_simd::Params::new()
        .personal(b"Penumbra_Payload")
        .hash_length(32)
        .to_state()
        .update(&ss.0)
        .update(&epk.0)
        .finalize();
    let key: [u8; 32] = key.as_bytes().try_into().unwrap();
    let cipher = chacha20poly1305::ChaCha20Poly1305::new((&key).into());
    let expected = cipher.encrypt((&[2u8; 12]).into(), &swap.to_bytes()[..]).unwrap();
    assert_eq!(&ciphertext.0[..], &expected[..]);
    assert_ne!(&ciphertext.0[..200], &swap.to_bytes()[..]);
}

#[test]
fn decryption_with_another_secret_fails() {
    let swap = fixed_swap();
    let ciphertext = swap.encrypt(&Secret([5u8; 32]));
    let r = ciphertext.decrypt(
        &Secret([6u8; 32]),
        swap.transmission_key(),
        &swap.diversified_generator(),
    );
    assert_eq!(r, Err(SwapError::DecryptionFailed));
}

#[test]
fn tampered_ciphertext_fails() {
    let swap = fixed_swap();
    let esk = Secret([5u8; 32]);
    let mut ciphertext = swap.encrypt(&esk);
    ciphertext.0[10] ^= 1;
    let r = ciphertext.decrypt(&esk, swap.transmission_key(), &swap.diversified_generator());
    assert_eq!(r, Err(SwapError::DecryptionFailed));
}

#[test]
fn invalid_transmission_key_is_refused() {
    // A canonical field element that is not a group element's encoding.
    let mut s = [0u8; 32];
    let mut found = None;
    for v in 1u8..=255 {
        s[0] = v;
        if decaf377::Encoding(s).vartime_decompress().is_err() {
            found = Some(s);
            break;
        }
    }
    let bad_key = found.expect("some small value does not decode");
    let addr = Address::from_components(Diversifier([1u8; 16]), Public(bad_key), ClueKey([0u8; 32]))
        .expect("canonical field element");
    let swap = sample_swap(addr);
    assert_eq!(swap.try_encrypt(&Secret([5u8; 32])), None);
    let good = fixed_swap().encrypt(&Secret([5u8; 32]));
    let r = good.decrypt(&Secret([5u8; 32]), &Public(bad_key), &swap.diversified_generator());
    assert_eq!(r, Err(SwapError::KeyAgreement));
}

#[test]
fn try_encrypt_agrees_with_encrypt() {
    let swap = fixed_swap();
    let esk = Secret([5u8; 32]);
    assert_eq!(swap.try_encrypt(&esk), Some(swap.encrypt(&esk)));
}

#[test]
fn ciphertext_from_bytes_checks_length() {
    let c = fixed_swap().encrypt(&Secret([5u8; 32]));
    assert_eq!(SwapCiphertext::from_bytes(&c.0[..]), Some(c));
    assert_eq!(SwapCiphertext::from_bytes(&c.0[..215]), None);
}

#[test]
fn asset_id_matches_the_poseidon_formula() {
    let swap = fixed_swap();
    let fq = |b: &[u8; 32]| decaf377::Fq::from_bytes_checked(b).unwrap();
    let ds = decaf377::Fq::from_le_bytes_mod_order(blake2b_simd::blake2b(b"penumbra.swap").as_bytes());
    let inner = poseidon377::hash_4(
        &ds,
        (
            fq(&swap.trading_pair.asset_1.0),
            fq(&swap.trading_pair.asset_2.0),
            decaf377::Fq::from(100000u64),
            decaf377::Fq::from(1u64),
        ),
    );
    let g_d = decaf377::Encoding(swap.diversified_generator().vartime_compress())
        .vartime_decompress()
        .unwrap();
    let expected = poseidon377::hash_6(
        &ds,
        (
            decaf377::Fq::from(3u64),
            fq(&swap.claim_fee.0.asset_id.0),
            g_d.vartime_compress_to_field(),
            fq(&swap.claim_address.transmission_key.0),
            decaf377::Fq::from_le_bytes_mod_order(&[7u8; 32]),
            inner,
        ),
    );
    assert_eq!(swap.asset_id().0, expected.to_bytes());

    let mut other = swap;
    other.delta_2_i = 2u64.into();
    assert_ne!(other.asset_id(), swap.asset_id());
}

#[test]
fn diversified_generator_matches_the_hash_to_curve() {
    let d = [4u8; 16];
    let hash = blake2b_simd::Params::new().personal(b"Penumbra_Divrsfy").hash(&d);
    let expected = decaf377::Element::encode_to_curve(&decaf377::Fq::from_le_bytes_mod_order(
        hash.as_bytes(),
    ));
    assert_eq!(
        Diversifier(d).diversified_generator().vartime_compress(),
        expected.vartime_compress().0
    );
}
