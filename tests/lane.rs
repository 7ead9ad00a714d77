use bridge_relay::{
    ConfirmError, InboundLane, InboundLaneState, Message, OutboundLane, ReceiveError, SendError,
    UnrewardedRelayer,
};

const LANE: [u8; 4] = [0, 0, 0, 0];

fn msg(nonce: u64) -> Message {
    Message { lane: LANE, nonce, payload: vec![nonce as u8], fee: 1 }
}

fn relayer(b: u8) -> [u8; 32] {
    [b; 32]
}

#[test]
fn sends_get_consecutive_nonces_from_one() {
    let mut lane = OutboundLane::new(LANE);
    for expected in 1..=7u64 {
        assert_eq!(lane.send_message(vec![1, 2], 10, u64::MAX), Ok(expected));
    }
    assert_eq!(lane.state.latest_generated_nonce, 7);
    let nonces: Vec<u64> = lane.messages.iter().map(|m| m.nonce).collect();
    assert_eq!(nonces, vec![1, 2, 3, 4, 5, 6, 7]);
}

#[test]
fn send_refused_when_capacity_exhausted() {
    let mut lane = OutboundLane::new(LANE);
    assert_eq!(lane.send_message(vec![], 0, 2), Ok(1));
    assert_eq!(lane.send_message(vec![], 0, 2), Ok(2));
    let before = lane.clone();
    assert_eq!(lane.send_message(vec![], 0, 2), Err(SendError::CapacityExhausted));
    assert_eq!(lane, before);
}

#[test]
fn send_refused_when_nonces_run_out() {
    let mut lane = OutboundLane::new(LANE);
    lane.state.latest_generated_nonce = u64::MAX;
    lane.state.latest_received_nonce = u64::MAX;
    assert_eq!(lane.send_message(vec![], 0, 5), Err(SendError::NonceOverflow));
}

#[test]
fn receive_takes_run_after_last_delivered() {
    let mut lane = InboundLane::new(LANE);
    assert_eq!(lane.receive_messages(relayer(1), &vec![msg(1), msg(2)], 10, 10), Ok(2));
    assert_eq!(lane.state.last_delivered_nonce, 2);
    assert_eq!(lane.state.relayers, vec![UnrewardedRelayer { relayer: relayer(1), begin: 1, end: 2 }]);
    assert_eq!(lane.receive_messages(relayer(2), &vec![msg(3)], 10, 10), Ok(3));
    assert_eq!(lane.state.relayers.len(), 2);
    assert_eq!(lane.state.relayers[1], UnrewardedRelayer { relayer: relayer(2), begin: 3, end: 3 });
}

#[test]
fn receive_refuses_duplicates_gaps_and_wrong_starts() {
    let mut lane = InboundLane::new(LANE);
    assert_eq!(lane.receive_messages(relayer(1), &vec![msg(1), msg(2)], 10, 10), Ok(2));
    let before = lane.clone();
    // a duplicate of a delivered nonce
    assert_eq!(lane.receive_messages(relayer(1), &vec![msg(2), msg(3)], 10, 10), Err(ReceiveError::UnexpectedNonce));
    // a gap at nonce 3
    assert_eq!(lane.receive_messages(relayer(1), &vec![msg(4)], 10, 10), Err(ReceiveError::UnexpectedNonce));
    // a gap inside the run
    assert_eq!(lane.receive_messages(relayer(1), &vec![msg(3), msg(5)], 10, 10), Err(ReceiveError::UnexpectedNonce));
    // out of order
    assert_eq!(lane.receive_messages(relayer(1), &vec![msg(4), msg(3)], 10, 10), Err(ReceiveError::UnexpectedNonce));
    assert_eq!(lane, before);
}

#[test]
fn receive_refuses_empty_batches_and_other_lanes() {
    let mut lane = InboundLane::new(LANE);
    assert_eq!(lane.receive_messages(relayer(1), &vec![], 10, 10), Err(ReceiveError::NoMessages));
    let other = Message { lane: [0, 0, 0, 1], nonce: 1, payload: vec![], fee: 0 };
    assert_eq!(lane.receive_messages(relayer(1), &vec![other], 10, 10), Err(ReceiveError::WrongLane));
}

#[test]
fn receive_refuses_beyond_unrewarded_bounds() {
    let mut lane = InboundLane::new(LANE);
    assert_eq!(lane.receive_messages(relayer(1), &vec![msg(1)], 1, 10), Ok(1));
    assert_eq!(lane.receive_messages(relayer(2), &vec![msg(2)], 1, 10), Err(ReceiveError::TooManyUnrewardedRelayers));
    assert_eq!(lane.receive_messages(relayer(2), &vec![msg(2), msg(3)], 5, 2), Err(ReceiveError::TooManyUnconfirmedMessages));
    assert_eq!(lane.receive_messages(relayer(2), &vec![msg(2)], 5, 2), Ok(2));
}

#[test]
fn prune_removes_confirmed_entries_oldest_first() {
    let mut lane = InboundLane::new(LANE);
    lane.receive_messages(relayer(1), &vec![msg(1), msg(2)], 10, 10).unwrap();
    lane.receive_messages(relayer(2), &vec![msg(3), msg(4), msg(5)], 10, 10).unwrap();
    assert_eq!(lane.receive_state_update(3), Some(3));
    assert_eq!(lane.state.last_confirmed_nonce, 3);
    assert_eq!(lane.state.relayers, vec![UnrewardedRelayer { relayer: relayer(2), begin: 4, end: 5 }]);
    // stale and impossible updates change nothing
    assert_eq!(lane.receive_state_update(2), None);
    assert_eq!(lane.receive_state_update(9), None);
    assert_eq!(lane.receive_state_update(5), Some(5));
    assert!(lane.state.relayers.is_empty());
    assert_eq!(lane.state.last_confirmed_nonce, lane.state.last_delivered_nonce);
}

#[test]
fn confirm_releases_messages_and_names_relayers() {
    let mut out = OutboundLane::new(LANE);
    for _ in 0..5 {
        out.send_message(vec![7], 3, u64::MAX).unwrap();
    }
    let proved = InboundLaneState {
        relayers: vec![
            UnrewardedRelayer { relayer: relayer(1), begin: 1, end: 2 },
            UnrewardedRelayer { relayer: relayer(2), begin: 3, end: 4 },
        ],
        last_confirmed_nonce: 0,
        last_delivered_nonce: 4,
    };
    let c = out.confirm_delivery(&proved).unwrap().unwrap();
    assert_eq!((c.begin, c.end), (1, 4));
    assert_eq!(c.rewards, proved.relayers);
    assert_eq!(out.state.latest_received_nonce, 4);
    assert_eq!(out.messages.len(), 1);
    assert_eq!(out.messages[0].nonce, 5);
    // the same proof again confirms nothing new
    assert_eq!(out.confirm_delivery(&proved), Ok(None));
}

#[test]
fn confirm_cuts_rewards_to_the_new_range() {
    let mut out = OutboundLane::new(LANE);
    for _ in 0..6 {
        out.send_message(vec![], 0, u64::MAX).unwrap();
    }
    out.state.latest_received_nonce = 2;
    out.messages.drain(0..2);
    let proved = InboundLaneState {
        relayers: vec![
            UnrewardedRelayer { relayer: relayer(1), begin: 1, end: 3 },
            UnrewardedRelayer { relayer: relayer(2), begin: 4, end: 6 },
        ],
        last_confirmed_nonce: 0,
        last_delivered_nonce: 6,
    };
    let c = out.confirm_delivery(&proved).unwrap().unwrap();
    assert_eq!((c.begin, c.end), (3, 6));
    assert_eq!(
        c.rewards,
        vec![
            UnrewardedRelayer { relayer: relayer(1), begin: 3, end: 3 },
            UnrewardedRelayer { relayer: relayer(2), begin: 4, end: 6 },
        ]
    );
}

#[test]
fn confirm_refuses_undelivered_claims() {
    let mut out = OutboundLane::new(LANE);
    out.send_message(vec![], 0, u64::MAX).unwrap();
    let proved = InboundLaneState {
        relayers: vec![UnrewardedRelayer { relayer: relayer(1), begin: 1, end: 3 }],
        last_confirmed_nonce: 0,
        last_delivered_nonce: 3,
    };
    assert_eq!(out.confirm_delivery(&proved), Err(ConfirmError::DeliveredNonceNotGenerated));
    assert_eq!(out.state.latest_received_nonce, 0);
}

#[test]
fn nonce_order_holds_along_a_run() {
    let mut out = OutboundLane::new(LANE);
    let mut inbound = InboundLane::new(LANE);
    let check = |o: &OutboundLane, i: &InboundLane| {
        assert!(i.state.last_confirmed_nonce <= i.state.last_delivered_nonce);
        assert!(i.state.last_delivered_nonce <= o.state.latest_generated_nonce);
        assert!(o.state.latest_received_nonce <= o.state.latest_generated_nonce);
    };
    for _ in 0..4 {
        out.send_message(vec![1], 1, u64::MAX).unwrap();
        check(&out, &inbound);
    }
    let batch: Vec<Message> = out.messages[0..3].to_vec();
    inbound.receive_messages(relayer(9), &batch, 10, 10).unwrap();
    check(&out, &inbound);
    out.confirm_delivery(&inbound.state).unwrap();
    check(&out, &inbound);
    inbound.receive_state_update(out.state.latest_received_nonce);
    check(&out, &inbound);
    assert_eq!(inbound.state.last_confirmed_nonce, 3);
    assert_eq!(out.messages.len(), 1);
}
