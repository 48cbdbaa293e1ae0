use fendermint_bytes::chain::{ChainMessage, ChainTag};
use fendermint_bytes::codec::DecodeError;
use fendermint_bytes::query::{route_query, FvmQuery, QueryTag};

fn sample_cid() -> cid::Cid {
    let mh = cid::multihash::Multihash::<64>::wrap(0x12, &[7u8; 32]).unwrap();
    cid::Cid::new_v1(0x71, mh)
}

fn cid_bytes() -> Vec<u8> {
    fvm_ipld_encoding::to_vec(&sample_cid()).unwrap()
}

fn address_bytes() -> Vec<u8> {
    fvm_ipld_encoding::to_vec(&fvm_shared::address::Address::new_id(17)).unwrap()
}

fn message_bytes() -> Vec<u8> {
    let msg = fvm_shared::message::Message {
        version: 0,
        from: fvm_shared::address::Address::new_id(100),
        to: fvm_shared::address::Address::new_id(17),
        sequence: 5,
        value: fvm_shared::econ::TokenAmount::from_atto(0),
        method_num: 2,
        params: fvm_ipld_encoding::RawBytes::new(vec![]),
        gas_limit: 10_000_000_000,
        gas_fee_cap: fvm_shared::econ::TokenAmount::from_atto(0),
        gas_premium: fvm_shared::econ::TokenAmount::from_atto(0),
    };
    fvm_ipld_encoding::to_vec(&msg).unwrap()
}

fn state_params_bytes() -> Vec<u8> {
    let mut v = vec![0x6b];
    v.extend_from_slice(b"StateParams");
    v
}

#[test]
fn chain_message_round_trips_each_variant() {
    let payload = fvm_ipld_encoding::to_vec(&vec![1u64, 2, 3]).unwrap();
    for tag in [ChainTag::Signed, ChainTag::ForExecution, ChainTag::ForResolution] {
        let m = ChainMessage::from_parts(tag, payload.clone());
        let bz = m.encode();
        assert_eq!(ChainMessage::decode(&bz), Ok(m));
    }
}

#[test]
fn chain_message_encoding_is_externally_tagged() {
    let m = ChainMessage::Signed(vec![0x01]);
    let mut expected = vec![0xa1, 0x66];
    expected.extend_from_slice(b"Signed");
    expected.push(0x01);
    assert_eq!(m.encode(), expected);
}

#[test]
fn chain_message_rejects_garbage() {
    assert_eq!(ChainMessage::decode(&[]), Err(DecodeError::NotAVariant));
    assert_eq!(ChainMessage::decode(&[0xff, 0x00, 0x01]), Err(DecodeError::NotAVariant));
    let mut unknown = vec![0xa1, 0x64];
    unknown.extend_from_slice(b"Nope");
    unknown.push(0x01);
    assert_eq!(ChainMessage::decode(&unknown), Err(DecodeError::UnknownVariant));
}

#[test]
fn chain_message_rejects_bad_payload() {
    let mut bz = vec![0xa1, 0x66];
    bz.extend_from_slice(b"Signed");
    // A byte string header that promises more bytes than follow.
    bz.push(0x45);
    bz.push(0x01);
    assert_eq!(ChainMessage::decode(&bz), Err(DecodeError::InvalidPayload));
    // Two items where one is expected.
    let mut two = vec![0xa1, 0x66];
    two.extend_from_slice(b"Signed");
    two.push(0x01);
    two.push(0x02);
    assert_eq!(ChainMessage::decode(&two), Err(DecodeError::InvalidPayload));
}

#[test]
fn query_round_trips_each_variant() {
    let queries = vec![
        FvmQuery::Ipld(cid_bytes()),
        FvmQuery::ActorState(address_bytes()),
        FvmQuery::Call(message_bytes()),
        FvmQuery::EstimateGas(message_bytes()),
        FvmQuery::StateParams,
    ];
    for q in queries {
        let bz = q.encode();
        assert_eq!(FvmQuery::decode(&bz), Ok(q));
    }
}

#[test]
fn state_params_encodes_as_its_name() {
    assert_eq!(FvmQuery::StateParams.encode(), state_params_bytes());
}

#[test]
fn query_payload_must_match_variant() {
    let wrong = FvmQuery::ActorState(cid_bytes()).encode();
    assert_eq!(FvmQuery::decode(&wrong), Err(DecodeError::InvalidPayload));
    let wrong_call = FvmQuery::Call(address_bytes()).encode();
    assert_eq!(FvmQuery::decode(&wrong_call), Err(DecodeError::InvalidPayload));
}

#[test]
fn store_path_routes_cid_to_ipld() {
    let bz = cid_bytes();
    let q = route_query("/store", &bz).unwrap();
    assert_eq!(q, FvmQuery::Ipld(bz.clone()));
    assert_eq!(q.tag(), QueryTag::Ipld);
    let decoded: cid::Cid = match q {
        FvmQuery::Ipld(b) => fvm_ipld_encoding::from_slice(&b).unwrap(),
        _ => unreachable!(),
    };
    assert_eq!(decoded, sample_cid());
}

#[test]
fn store_path_rejects_non_cid() {
    assert_eq!(route_query("/store", &state_params_bytes()), Err(DecodeError::InvalidPayload));
    assert_eq!(route_query("/store", &[]), Err(DecodeError::InvalidPayload));
}

#[test]
fn other_paths_route_state_params_regardless_of_path() {
    for path in ["", "/", "/storage", "anything", "StateParams", "/store/"] {
        assert_eq!(route_query(path, &state_params_bytes()), Ok(FvmQuery::StateParams));
    }
}

#[test]
fn other_paths_decode_whole_query() {
    let q = FvmQuery::ActorState(address_bytes());
    assert_eq!(route_query("", &q.encode()), Ok(q));
    assert_eq!(route_query("", &cid_bytes()), Err(DecodeError::NotAVariant));
}
