use bridge_relay::{
    DeliveryStorage,
    check_inbound_state, encode_message, verify_messages_delivery_proof, verify_messages_proof,
    HeaderChain, HeaderId, ImportError, ImportedHeader, InboundLaneState, MessagesDeliveryProof,
    MessagesProof, MessagesStorage, OutboundLaneState, UnrewardedRelayer, VerificationError,
};

const LANE: [u8; 4] = [0, 0, 0, 1];

fn header(number: u64) -> HeaderId {
    HeaderId { number, hash: [number as u8; 32] }
}

fn chain() -> HeaderChain {
    let mut c = HeaderChain::new();
    c.import_finalized(ImportedHeader { id: header(3), state_root: [3; 32] }).unwrap();
    c.import_finalized(ImportedHeader { id: header(7), state_root: [9; 32] }).unwrap();
    c
}

fn messages_proof(start: u64, end: u64) -> MessagesProof {
    MessagesProof { header: header(7), lane: LANE, nonces_start: start, nonces_end: end, storage_proof: vec![vec![1, 2]] }
}

fn stored(n: usize) -> MessagesStorage {
    let messages = (0..n).map(|i| Some(encode_message(i as u128, &vec![i as u8]))).collect();
    MessagesStorage { state_root: [9; 32], messages, outbound_lane_state: None }
}

#[test]
fn header_chain_imports_only_newer_headers() {
    let mut c = chain();
    assert_eq!(c.best_finalized(), Some(header(7)));
    assert_eq!(c.state_root(&header(3)), Some([3; 32]));
    assert_eq!(c.state_root(&header(4)), None);
    let stale = ImportedHeader { id: header(7), state_root: [0; 32] };
    assert_eq!(c.import_finalized(stale), Err(ImportError::OldHeader));
    assert_eq!(c.headers.len(), 2);
}

#[test]
fn messages_proof_decodes_each_message() {
    let p = verify_messages_proof(&messages_proof(4, 5), &chain(), Some(stored(2)), 2, 10, 1_000).unwrap();
    assert_eq!(p.lane, LANE);
    assert_eq!(p.lane_state, None);
    assert_eq!(p.messages.len(), 2);
    assert_eq!((p.messages[0].nonce, p.messages[0].fee, p.messages[0].payload.clone()), (4, 0, vec![0]));
    assert_eq!((p.messages[1].nonce, p.messages[1].fee, p.messages[1].payload.clone()), (5, 1, vec![1]));
}

#[test]
fn messages_proof_errors() {
    let c = chain();
    assert_eq!(verify_messages_proof(&messages_proof(4, 5), &c, Some(stored(2)), 3, 10, 1_000), Err(VerificationError::MessagesCountMismatch));
    assert_eq!(verify_messages_proof(&messages_proof(4, 5), &c, Some(stored(2)), 2, 1, 1_000), Err(VerificationError::TooManyMessages));
    let mut unknown = messages_proof(4, 5);
    unknown.header = header(5);
    assert_eq!(verify_messages_proof(&unknown, &c, Some(stored(2)), 2, 10, 1_000), Err(VerificationError::UnknownHeader));
    assert_eq!(verify_messages_proof(&messages_proof(4, 5), &c, None, 2, 10, 1_000), Err(VerificationError::InvalidStorageProof));
    assert_eq!(verify_messages_proof(&messages_proof(4, 5), &c, Some(stored(3)), 2, 10, 1_000), Err(VerificationError::InvalidStorageProof));
    let mut missing = stored(2);
    missing.messages[1] = None;
    assert_eq!(verify_messages_proof(&messages_proof(4, 5), &c, Some(missing), 2, 10, 1_000), Err(VerificationError::MissingMessage));
    let mut short = stored(2);
    short.messages[0] = Some(vec![1, 2, 3]);
    assert_eq!(verify_messages_proof(&messages_proof(4, 5), &c, Some(short), 2, 10, 1_000), Err(VerificationError::FailedToDecodeMessage));
    let mut bad_state = stored(2);
    bad_state.outbound_lane_state = Some(vec![0; 5]);
    assert_eq!(verify_messages_proof(&messages_proof(4, 5), &c, Some(bad_state), 2, 10, 1_000), Err(VerificationError::FailedToDecodeLaneState));
    assert_eq!(verify_messages_proof(&messages_proof(5, 4), &c, Some(stored(0)), 0, 10, 1_000), Err(VerificationError::Empty));
}

#[test]
fn messages_proof_may_carry_only_lane_state() {
    let mut st = stored(0);
    let state = OutboundLaneState { latest_generated_nonce: 9, latest_received_nonce: 4 };
    st.outbound_lane_state = Some(state.encode());
    let p = verify_messages_proof(&messages_proof(5, 4), &chain(), Some(st), 0, 10, 1_000).unwrap();
    assert!(p.messages.is_empty());
    assert_eq!(p.lane_state, Some(state));
}

fn inbound_state() -> InboundLaneState {
    InboundLaneState {
        relayers: vec![
            UnrewardedRelayer { relayer: [4; 32], begin: 3, end: 4 },
            UnrewardedRelayer { relayer: [5; 32], begin: 5, end: 8 },
        ],
        last_confirmed_nonce: 2,
        last_delivered_nonce: 8,
    }
}

#[test]
fn delivery_proof_returns_decoded_state() {
    let p = MessagesDeliveryProof { header: header(3), lane: LANE, storage_proof: vec![] };
    let s = inbound_state();
    assert_eq!(verify_messages_delivery_proof(&p, &chain(), Some(DeliveryStorage { state_root: [3; 32], inbound_lane_state: Some(s.encode()) })), Ok((LANE, s)));
}

#[test]
fn delivery_proof_errors() {
    let c = chain();
    let p = MessagesDeliveryProof { header: header(3), lane: LANE, storage_proof: vec![] };
    let unknown = MessagesDeliveryProof { header: header(4), lane: LANE, storage_proof: vec![] };
    assert_eq!(verify_messages_delivery_proof(&unknown, &c, Some(DeliveryStorage { state_root: [3; 32], inbound_lane_state: Some(inbound_state().encode()) })), Err(VerificationError::UnknownHeader));
    assert_eq!(verify_messages_delivery_proof(&p, &c, None), Err(VerificationError::InvalidStorageProof));
    assert_eq!(verify_messages_delivery_proof(&p, &c, Some(DeliveryStorage { state_root: [3; 32], inbound_lane_state: None })), Err(VerificationError::MissingLaneState));
    let mut truncated = inbound_state().encode();
    truncated.pop();
    assert_eq!(verify_messages_delivery_proof(&p, &c, Some(DeliveryStorage { state_root: [3; 32], inbound_lane_state: Some(truncated) })), Err(VerificationError::FailedToDecodeLaneState));
    let mut gapped = inbound_state();
    gapped.relayers[1].begin = 6;
    assert_eq!(verify_messages_delivery_proof(&p, &c, Some(DeliveryStorage { state_root: [3; 32], inbound_lane_state: Some(gapped.encode()) })), Err(VerificationError::InvalidLaneState));
}

#[test]
fn inbound_state_check_follows_queue_invariant() {
    assert!(check_inbound_state(&inbound_state()));
    assert!(check_inbound_state(&InboundLaneState::new()));
    let mut s = inbound_state();
    s.last_delivered_nonce = 9;
    assert!(!check_inbound_state(&s));
    let mut s = inbound_state();
    s.last_confirmed_nonce = 3;
    assert!(!check_inbound_state(&s));
    let mut s = inbound_state();
    s.relayers[0].end = 2;
    s.relayers[0].begin = 3;
    assert!(!check_inbound_state(&s));
    let empty_with_gap = InboundLaneState { relayers: vec![], last_confirmed_nonce: 1, last_delivered_nonce: 2 };
    assert!(!check_inbound_state(&empty_with_gap));
}

#[test]
fn messages_proof_bounds_total_payload() {
    let c = chain();
    assert_eq!(verify_messages_proof(&messages_proof(4, 5), &c, Some(stored(2)), 2, 10, 1), Err(VerificationError::TooLarge));
    assert!(verify_messages_proof(&messages_proof(4, 5), &c, Some(stored(2)), 2, 10, 2).is_ok());
    // the peer chain takes at most 1_048_576 payload bytes in one proof
    let big = MessagesStorage {
        state_root: [9; 32],
        messages: vec![Some(encode_message(0, &vec![0u8; 600_000])), Some(encode_message(0, &vec![0u8; 600_000]))],
        outbound_lane_state: None,
    };
    assert_eq!(
        bridge_relay::peer_runtime::Substrate::verify_messages_proof(&messages_proof(4, 5), 2, &c, Some(big)),
        Err(VerificationError::TooLarge)
    );
}

#[test]
fn read_outs_against_another_root_are_refused() {
    let c = chain();
    let mut wrong = stored(2);
    wrong.state_root = [3; 32];
    assert_eq!(verify_messages_proof(&messages_proof(4, 5), &c, Some(wrong), 2, 10, 1_000), Err(VerificationError::InvalidStorageProof));
    let p = MessagesDeliveryProof { header: header(3), lane: LANE, storage_proof: vec![] };
    let read = DeliveryStorage { state_root: [9; 32], inbound_lane_state: Some(inbound_state().encode()) };
    assert_eq!(verify_messages_delivery_proof(&p, &c, Some(read)), Err(VerificationError::InvalidStorageProof));
}
