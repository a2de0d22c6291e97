use taiji_wallet::mempool::{ProtoSignature, ProtoStateResponse, Signature, StateResponse, StateResponseError};

const BASEPOINT: [u8; 32] = [
    0xe2, 0xf2, 0xae, 0x0a, 0x6a, 0xbc, 0x4e, 0x71, 0xa8, 0x84, 0xa9, 0x61, 0xc5, 0x00, 0x51, 0x5f, 0x58, 0xe3,
    0x0b, 0x6a, 0xa5, 0x82, 0xdd, 0x8d, 0xb6, 0xa6, 0x59, 0x45, 0xe0, 0x8d, 0x2d, 0x76,
];

fn scalar(n: u8) -> Vec<u8> {
    let mut s = vec![0u8; 32];
    s[0] = n;
    s
}

fn good(n: u8) -> ProtoSignature {
    ProtoSignature { public_nonce: BASEPOINT.to_vec(), signature: scalar(n) }
}

#[test]
fn signature_round_trips_through_the_wire_form() {
    let sig = Signature::try_from_proto(&good(7)).expect("canonical signature");
    let back = sig.to_proto();
    assert_eq!(back.public_nonce, BASEPOINT.to_vec());
    assert_eq!(back.signature, scalar(7));
    let identity = ProtoSignature { public_nonce: vec![0u8; 32], signature: scalar(0) };
    let sig = Signature::try_from_proto(&identity).expect("identity point");
    assert_eq!(sig.to_proto().public_nonce, vec![0u8; 32]);
}

#[test]
fn malformed_signatures_are_refused() {
    let short = ProtoSignature { public_nonce: BASEPOINT[..31].to_vec(), signature: scalar(1) };
    assert!(Signature::try_from_proto(&short).is_none());
    let bad_point = ProtoSignature { public_nonce: vec![0xff; 32], signature: scalar(1) };
    assert!(Signature::try_from_proto(&bad_point).is_none());
    let bad_scalar = ProtoSignature { public_nonce: BASEPOINT.to_vec(), signature: vec![0xff; 32] };
    assert!(Signature::try_from_proto(&bad_scalar).is_none());
    let long_scalar = ProtoSignature { public_nonce: BASEPOINT.to_vec(), signature: vec![1u8; 33] };
    assert!(Signature::try_from_proto(&long_scalar).is_none());
}

#[test]
fn state_response_decodes_both_pools() {
    let proto = ProtoStateResponse { unconfirmed_pool: vec![good(1), good(2)], reorg_pool: vec![good(3)] };
    let state = StateResponse::try_from_proto(&proto).expect("all canonical");
    assert_eq!(state.unconfirmed_pool.len(), 2);
    assert_eq!(state.reorg_pool.len(), 1);
    let wire = state.into_proto();
    assert_eq!(wire.unconfirmed_pool[1].signature, scalar(2));
    assert_eq!(wire.reorg_pool[0].signature, scalar(3));
    assert_eq!(wire.reorg_pool[0].public_nonce, BASEPOINT.to_vec());
}

#[test]
fn state_response_reports_the_first_bad_entry() {
    let bad = ProtoSignature { public_nonce: vec![0xff; 32], signature: scalar(1) };
    let proto = ProtoStateResponse {
        unconfirmed_pool: vec![good(1)],
        reorg_pool: vec![good(2), bad, good(4)],
    };
    assert_eq!(
        StateResponse::try_from_proto(&proto).err(),
        Some(StateResponseError::InvalidReorgSignature(1))
    );
    let bad = ProtoSignature { public_nonce: BASEPOINT.to_vec(), signature: vec![] };
    let proto = ProtoStateResponse { unconfirmed_pool: vec![bad], reorg_pool: vec![] };
    assert_eq!(
        StateResponse::try_from_proto(&proto).err(),
        Some(StateResponseError::InvalidUnconfirmedSignature(0))
    );
    let empty = ProtoStateResponse { unconfirmed_pool: vec![], reorg_pool: vec![] };
    let state = StateResponse::try_from_proto(&empty).expect("empty pools");
    assert!(state.unconfirmed_pool.is_empty() && state.reorg_pool.is_empty());
}
