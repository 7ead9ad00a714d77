use bridge_relay::{
    DeliveryStorage,
    encode_message, receive_messages_delivery_proof, receive_messages_proof, ConfirmError,
    ConfirmProofError, HeaderChain, HeaderId, ImportedHeader, InboundLane, InboundLaneState,
    MessagesDeliveryProof, MessagesProof, MessagesStorage, OutboundLane, OutboundLaneState,
    ReceiveError, ReceiveProofError, UnrewardedRelayer, VerificationError,
};

const LANE: [u8; 4] = [0, 0, 0, 0];

fn header(number: u64) -> HeaderId {
    HeaderId { number, hash: [number as u8; 32] }
}

fn headers() -> HeaderChain {
    let mut c = HeaderChain::new();
    c.import_finalized(ImportedHeader { id: header(4), state_root: [1; 32] }).unwrap();
    c
}

fn storage(from: u64, to: u64, received: u64) -> MessagesStorage {
    MessagesStorage {
        state_root: [1; 32],
        messages: (from..=to).map(|n| Some(encode_message(n as u128, &vec![n as u8]))).collect(),
        outbound_lane_state: Some(OutboundLaneState { latest_generated_nonce: to, latest_received_nonce: received }.encode()),
    }
}

fn messages_proof_for(from: u64, to: u64) -> MessagesProof {
    MessagesProof { header: header(4), lane: LANE, nonces_start: from, nonces_end: to, storage_proof: vec![] }
}

#[test]
fn messages_proof_call_delivers_and_prunes() {
    let mut lane = InboundLane::new(LANE);
    let r = receive_messages_proof(&mut lane, [1; 32], &messages_proof_for(1, 2), &headers(), Some(storage(1, 2, 0)), 2, 8, 8, 1_000);
    assert_eq!(r, Ok(2));
    let r = receive_messages_proof(&mut lane, [2; 32], &messages_proof_for(3, 5), &headers(), Some(storage(3, 5, 2)), 3, 8, 8, 1_000);
    assert_eq!(r, Ok(5));
    assert_eq!(lane.state.last_confirmed_nonce, 2);
    assert_eq!(lane.state.relayers, vec![UnrewardedRelayer { relayer: [2; 32], begin: 3, end: 5 }]);
}

#[test]
fn messages_proof_call_refusals_change_nothing() {
    let mut lane = InboundLane::new(LANE);
    let before = lane.clone();
    let r = receive_messages_proof(&mut lane, [1; 32], &messages_proof_for(2, 3), &headers(), Some(storage(2, 3, 0)), 2, 8, 8, 1_000);
    assert_eq!(r, Err(ReceiveProofError::Receive(ReceiveError::UnexpectedNonce)));
    let mut unknown = messages_proof_for(1, 2);
    unknown.header = header(5);
    let r = receive_messages_proof(&mut lane, [1; 32], &unknown, &headers(), Some(storage(1, 2, 0)), 2, 8, 8, 1_000);
    assert_eq!(r, Err(ReceiveProofError::Verification(VerificationError::UnknownHeader)));
    assert_eq!(lane, before);
}

#[test]
fn messages_proof_call_with_state_only() {
    let mut lane = InboundLane::new(LANE);
    receive_messages_proof(&mut lane, [1; 32], &messages_proof_for(1, 3), &headers(), Some(storage(1, 3, 0)), 3, 8, 8, 1_000).unwrap();
    let st = MessagesStorage {
        state_root: [1; 32],
        messages: vec![],
        outbound_lane_state: Some(OutboundLaneState { latest_generated_nonce: 3, latest_received_nonce: 3 }.encode()),
    };
    assert_eq!(receive_messages_proof(&mut lane, [1; 32], &messages_proof_for(4, 3), &headers(), Some(st), 0, 8, 8, 1_000), Ok(3));
    assert_eq!(lane.state.last_confirmed_nonce, 3);
    assert!(lane.state.relayers.is_empty());
}

#[test]
fn delivery_proof_call_confirms() {
    let mut out = OutboundLane::new(LANE);
    for _ in 0..3 {
        out.send_message(vec![9], 1, u64::MAX).unwrap();
    }
    let state = InboundLaneState {
        relayers: vec![UnrewardedRelayer { relayer: [3; 32], begin: 1, end: 2 }],
        last_confirmed_nonce: 0,
        last_delivered_nonce: 2,
    };
    let proof = MessagesDeliveryProof { header: header(4), lane: LANE, storage_proof: vec![] };
    let c = receive_messages_delivery_proof(&mut out, &proof, &headers(), Some(DeliveryStorage { state_root: [1; 32], inbound_lane_state: Some(state.encode()) })).unwrap().unwrap();
    assert_eq!((c.begin, c.end), (1, 2));
    assert_eq!(c.rewards, state.relayers);
    assert_eq!(out.state.latest_received_nonce, 2);
    assert_eq!(out.messages.len(), 1);
}

#[test]
fn delivery_proof_call_refusals() {
    let mut out = OutboundLane::new(LANE);
    out.send_message(vec![9], 1, u64::MAX).unwrap();
    let state = InboundLaneState {
        relayers: vec![UnrewardedRelayer { relayer: [3; 32], begin: 1, end: 2 }],
        last_confirmed_nonce: 0,
        last_delivered_nonce: 2,
    };
    let other = MessagesDeliveryProof { header: header(4), lane: [0, 0, 0, 1], storage_proof: vec![] };
    assert_eq!(receive_messages_delivery_proof(&mut out, &other, &headers(), Some(DeliveryStorage { state_root: [1; 32], inbound_lane_state: Some(state.encode()) })), Err(ConfirmProofError::LaneMismatch));
    let proof = MessagesDeliveryProof { header: header(4), lane: LANE, storage_proof: vec![] };
    assert_eq!(
        receive_messages_delivery_proof(&mut out, &proof, &headers(), Some(DeliveryStorage { state_root: [1; 32], inbound_lane_state: Some(state.encode()) })),
        Err(ConfirmProofError::Confirm(ConfirmError::DeliveredNonceNotGenerated))
    );
    assert_eq!(
        receive_messages_delivery_proof(&mut out, &proof, &headers(), None),
        Err(ConfirmProofError::Verification(VerificationError::InvalidStorageProof))
    );
    assert_eq!(out.state.latest_received_nonce, 0);
}

#[test]
fn messages_proof_call_refuses_other_lanes() {
    let mut lane = InboundLane::new(LANE);
    receive_messages_proof(&mut lane, [1; 32], &messages_proof_for(1, 3), &headers(), Some(storage(1, 3, 0)), 3, 8, 8, 1_000).unwrap();
    let before = lane.clone();
    // a proof of another lane's state only, which would confirm nonces here
    let st = MessagesStorage {
        state_root: [1; 32],
        messages: vec![],
        outbound_lane_state: Some(OutboundLaneState { latest_generated_nonce: 3, latest_received_nonce: 3 }.encode()),
    };
    let mut other = messages_proof_for(4, 3);
    other.lane = [0, 0, 0, 1];
    assert_eq!(receive_messages_proof(&mut lane, [1; 32], &other, &headers(), Some(st), 0, 8, 8, 1_000), Err(ReceiveProofError::LaneMismatch));
    assert_eq!(lane, before);
}
