use bridge_relay::peer_runtime::Substrate;
use bridge_relay::{
    decide_delivery, encode_message, verify_messages_proof, DeliveryDecision, DeliveryLimits,
    FinalityAction, FinalityEvent, FinalityPoll, FinalitySync, FinalitySyncState, HeaderChain,
    HeaderId, ImportedHeader, InboundLane, LaneScan, Message, MessagesProof, MessagesStorage,
    OutboundLane, OutboundLaneState, ReceiveError, RelayStrategy, UnrewardedRelayer,
};

const LANE: [u8; 4] = [0, 0, 0, 0];

fn header(number: u64) -> HeaderId {
    HeaderId { number, hash: [number as u8; 32] }
}

fn known_headers() -> HeaderChain {
    let mut chain = HeaderChain::new();
    chain.import_finalized(ImportedHeader { id: header(10), state_root: [7; 32] }).unwrap();
    chain
}

/// A source lane with five messages sent and two confirmed, and the stored
/// values of its messages `from..=to` with its outbound state.
fn source_storage(from: u64, to: u64) -> (OutboundLane, MessagesStorage) {
    let mut source = OutboundLane::new(LANE);
    for n in 1..=5u64 {
        source.send_message(vec![n as u8; 3], 100 + n as u128, u64::MAX).unwrap();
    }
    source.state.latest_received_nonce = 2;
    source.messages.drain(0..2);
    let stored: Vec<Option<Vec<u8>>> = (from..=to)
        .map(|n| {
            let m = &source.messages[(n - 3) as usize];
            Some(encode_message(m.fee, &m.payload))
        })
        .collect();
    let state = OutboundLaneState { latest_generated_nonce: 5, latest_received_nonce: 2 };
    (source, MessagesStorage { state_root: [7; 32], messages: stored, outbound_lane_state: Some(state.encode()) })
}

/// A target lane that delivered and confirmed nonces 1 and 2.
fn target_at_two() -> InboundLane {
    let mut target = InboundLane::new(LANE);
    let first: Vec<Message> = (1..=2u64)
        .map(|n| Message { lane: LANE, nonce: n, payload: vec![n as u8; 3], fee: 100 + n as u128 })
        .collect();
    target.receive_messages([1; 32], &first, 16, 16).unwrap();
    target.receive_state_update(2).unwrap();
    target
}

#[test]
fn delivery_of_three_to_five_moves_last_delivered_to_five() {
    let (source, storage) = source_storage(3, 5);
    let proof = MessagesProof { header: header(10), lane: LANE, nonces_start: 3, nonces_end: 5, storage_proof: vec![] };
    let proved = verify_messages_proof(&proof, &known_headers(), Some(storage), 3, 16, 1_000).unwrap();
    assert_eq!(proved.messages, source.messages);
    assert_eq!(proved.lane_state, Some(OutboundLaneState { latest_generated_nonce: 5, latest_received_nonce: 2 }));

    let mut target = target_at_two();
    assert_eq!(target.state.last_delivered_nonce, 2);
    assert!(target.state.relayers.is_empty());
    assert_eq!(target.receive_messages([2; 32], &proved.messages, 16, 16), Ok(5));
    assert_eq!(target.state.last_delivered_nonce, 5);
    assert_eq!(target.state.relayers, vec![UnrewardedRelayer { relayer: [2; 32], begin: 3, end: 5 }]);
}

#[test]
fn delivery_of_four_to_five_after_two_is_refused() {
    let (_, storage) = source_storage(4, 5);
    let proof = MessagesProof { header: header(10), lane: LANE, nonces_start: 4, nonces_end: 5, storage_proof: vec![] };
    let proved = verify_messages_proof(&proof, &known_headers(), Some(storage), 2, 16, 1_000).unwrap();
    let mut target = target_at_two();
    let before = target.clone();
    assert_eq!(target.receive_messages([2; 32], &proved.messages, 16, 16), Err(ReceiveError::UnexpectedNonce));
    assert_eq!(target, before);
}

#[test]
fn delivery_through_runtime_check() {
    let (_, storage) = source_storage(3, 5);
    let proof = MessagesProof { header: header(10), lane: LANE, nonces_start: 3, nonces_end: 5, storage_proof: vec![] };
    let proved = Substrate::verify_messages_proof(&proof, 3, &known_headers(), Some(storage)).unwrap();
    assert_eq!(proved.messages.len(), 3);
    assert_eq!(proved.messages[0].nonce, 3);
    assert_eq!(proved.messages[2].fee, 105);
}

#[test]
fn authority_set_change_is_relayed_with_no_messages_pending() {
    // no message is waiting on the lane
    let scan = LaneScan {
        source_latest_generated: 4,
        source_generated_at_target_known: 4,
        source_latest_received: 4,
        target_last_delivered: 4,
        target_delivered_at_source_known: 4,
        competing_delivery_in_flight: false,
    };
    let limits = DeliveryLimits { max_messages_per_proof: 8, max_weight_per_proof: 1_000 };
    assert_eq!(decide_delivery(&scan, None, &vec![], &limits, RelayStrategy::Altruistic), DeliveryDecision::Nothing);

    for only_mandatory in [false, true] {
        let mut sync = FinalitySync::new(only_mandatory);
        let h = header(8);
        let poll = FinalityPoll { source_best: header(12), target_best_number: 5, mandatory: Some(h) };
        assert_eq!(sync.on_event(FinalityEvent::Polled(poll)), FinalityAction::SubmitFinalityProof(h));
        assert_eq!(sync.state, FinalitySyncState::Submitting { header: h });
    }
}
