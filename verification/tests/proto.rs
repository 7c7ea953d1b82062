use swap_plaintext::asset::{Fee, Id, TradingPair, Value};
use swap_plaintext::keys::{Address, ClueKey, Diversifier, Secret};
use swap_plaintext::proto;
use swap_plaintext::proto::ProtoError;
use swap_plaintext::swap::SwapPlaintext;

fn id(byte: u8) -> Id {
    let mut b = [0u8; 32];
    b[0] = byte;
    Id(b)
}

fn address() -> Address {
    let d = Diversifier([2u8; 16]);
    let pk_d = Secret([3u8; 32]).diversified_public(&d.diversified_generator());
    Address::from_components(d, pk_d, ClueKey([4u8; 32])).unwrap()
}

fn plaintext() -> SwapPlaintext {
    SwapPlaintext {
        trading_pair: TradingPair { asset_1: id(1), asset_2: id(2) },
        delta_1_i: 10u64.into(),
        delta_2_i: 20u64.into(),
        claim_fee: Fee(Value { amount: 1u64.into(), asset_id: id(1) }),
        claim_address: address(),
    }
}

#[test]
fn proto_roundtrip() {
    let p = plaintext();
    let m = p.to_proto();
    assert_eq!(m.delta_1_i, Some(proto::Amount { inner: 10 }));
    assert_eq!(m.claim_address.as_ref().unwrap().inner, p.claim_address.to_bytes().to_vec());
    assert_eq!(SwapPlaintext::from_proto(&m), Ok(p));
}

#[test]
fn missing_fields_are_reported_in_order() {
    let full = plaintext().to_proto();

    let mut m = full.clone();
    m.delta_1_i = None;
    m.trading_pair = None;
    assert_eq!(SwapPlaintext::from_proto(&m), Err(ProtoError::MissingDelta1));

    let mut m = full.clone();
    m.delta_2_i = None;
    m.claim_address = None;
    assert_eq!(SwapPlaintext::from_proto(&m), Err(ProtoError::MissingDelta2));

    let mut m = full.clone();
    m.claim_address = None;
    m.claim_fee = None;
    assert_eq!(SwapPlaintext::from_proto(&m), Err(ProtoError::MissingClaimAddress));

    let mut m = full.clone();
    m.claim_address = Some(proto::Address { inner: vec![0u8; 79] });
    assert_eq!(SwapPlaintext::from_proto(&m), Err(ProtoError::InvalidClaimAddress));

    let mut m = full.clone();
    m.claim_fee = None;
    m.trading_pair = None;
    assert_eq!(SwapPlaintext::from_proto(&m), Err(ProtoError::MissingClaimFee));

    let mut m = full.clone();
    m.claim_fee.as_mut().unwrap().amount = None;
    assert_eq!(SwapPlaintext::from_proto(&m), Err(ProtoError::MissingFeeAmount));

    let mut m = full.clone();
    m.claim_fee.as_mut().unwrap().asset_id = None;
    assert_eq!(SwapPlaintext::from_proto(&m), Err(ProtoError::MissingFeeAssetId));

    let mut m = full.clone();
    m.claim_fee.as_mut().unwrap().asset_id = Some(proto::AssetId { inner: vec![0xff; 32] });
    assert_eq!(SwapPlaintext::from_proto(&m), Err(ProtoError::InvalidAssetId));

    let mut m = full.clone();
    m.trading_pair = None;
    assert_eq!(SwapPlaintext::from_proto(&m), Err(ProtoError::MissingTradingPair));

    let mut m = full.clone();
    m.trading_pair.as_mut().unwrap().asset_1 = None;
    assert_eq!(SwapPlaintext::from_proto(&m), Err(ProtoError::MissingAsset1));

    let mut m = full.clone();
    m.trading_pair.as_mut().unwrap().asset_2 = None;
    assert_eq!(SwapPlaintext::from_proto(&m), Err(ProtoError::MissingAsset2));

    let mut m = full;
    m.trading_pair.as_mut().unwrap().asset_2 = Some(proto::AssetId { inner: vec![1u8; 31] });
    assert_eq!(SwapPlaintext::from_proto(&m), Err(ProtoError::InvalidAssetId));
}

#[test]
fn asset_id_messages() {
    assert_eq!(Id::from_proto(&id(9).to_proto()), Ok(id(9)));
    assert_eq!(Id::from_proto(&proto::AssetId { inner: vec![] }), Err(ProtoError::InvalidAssetId));
    assert_eq!(
        Id::from_proto(&proto::AssetId { inner: vec![0xff; 32] }),
        Err(ProtoError::InvalidAssetId)
    );
}

#[test]
fn address_messages() {
    let a = address();
    assert_eq!(Address::from_proto(&a.to_proto()), Some(a));
    let mut bad = a.to_proto();
    bad.inner[16..48].copy_from_slice(&[0xff; 32]);
    assert_eq!(Address::from_proto(&bad), None);
}
