use bridge_relay::peer_runtime::{
    Peer, PeerToSubstrateMessagesParameter, Substrate, WithSubstrateMessageBridge,
};
use bridge_relay::substrate_runtime;
use bridge_relay::{
    check_bridge_integrity, check_config_integrity, estimate_delivery_transaction,
    maximal_incoming_message_size, peer_chain, peer_chain_id, peer_lane_config, send_message,
    substrate_chain, substrate_chain_id, FixedRate, FullBridge, IntegrityError, LaneConfig,
    OutboundLane, ParameterStore, RelayStrategy, RuntimeOrigin, SendError, Substrate2,
    VerifyMessageError, InboundLaneState, SUBSTRATE_TO_PEER_INDEX, FIXED_DIV,
};

#[test]
fn substrate_messages_ensure_bridge_integrity() {
    assert_eq!(WithSubstrateMessageBridge::check_integrity(), Ok(()));
    assert_eq!(check_config_integrity(&FullBridge::SubstrateToPeer.config()), Ok(()));
}

#[test]
fn our_chain_messages_ensure_bridge_integrity() {
    assert_eq!(substrate_runtime::WithPeerMessageBridge::check_integrity(), Ok(()));
    assert_eq!(check_config_integrity(&FullBridge::PeerToSubstrate.config()), Ok(()));
}

#[test]
fn integrity_errors() {
    let lane = peer_lane_config();
    let (p, s) = (peer_chain(), substrate_chain());
    assert_eq!(check_bridge_integrity(&peer_chain_id(), &peer_chain_id(), &p, &s, &lane), Err(IntegrityError::SameChainIds));
    let wide = LaneConfig { max_unrewarded_relayers_at_inbound_lane: 129, max_unconfirmed_messages_at_inbound_lane: 1 };
    assert_eq!(check_bridge_integrity(&peer_chain_id(), &substrate_chain_id(), &p, &s, &wide), Err(IntegrityError::TooManyUnrewardedRelayers));
    let deep = LaneConfig { max_unrewarded_relayers_at_inbound_lane: 1, max_unconfirmed_messages_at_inbound_lane: 129 };
    assert_eq!(check_bridge_integrity(&peer_chain_id(), &substrate_chain_id(), &p, &s, &deep), Err(IntegrityError::TooManyUnconfirmedMessages));
    let mut tiny = s;
    tiny.tx_extra_bytes = tiny.max_extrinsic_size;
    assert_eq!(check_bridge_integrity(&peer_chain_id(), &substrate_chain_id(), &p, &tiny, &lane), Err(IntegrityError::MessageDoesNotFit));
}

#[test]
fn bridge_instance_indexes() {
    assert_eq!(FullBridge::PeerToSubstrate.bridge_instance_index(), 0);
    assert_eq!(FullBridge::SubstrateToPeer.bridge_instance_index(), SUBSTRATE_TO_PEER_INDEX);
}

#[test]
fn bridge_config_lookup() {
    let c = FullBridge::PeerToSubstrate.config();
    assert_eq!(c.source_id, peer_chain_id());
    assert_eq!(c.target_id, substrate_chain_id());
    assert_eq!(c.relay_strategy, RelayStrategy::Altruistic);
    assert_eq!(c.delivery_limits.max_messages_per_proof, 1024);
    assert_eq!(c.delivery_limits.max_weight_per_proof, 749_937_500_000);
    let d = FullBridge::SubstrateToPeer.config();
    assert_eq!(d.source, substrate_chain());
    assert_eq!(d.delivery_limits.max_messages_per_proof, 128);
}

#[test]
fn peer_accepts_designated_caller_or_linked_account_on_open_lanes() {
    assert!(Peer::is_message_accepted(&RuntimeOrigin::XcmHere, &[0, 0, 0, 1], None));
    assert!(Peer::is_message_accepted(&RuntimeOrigin::Signed([1; 32]), &[0, 0, 0, 0], None));
    assert!(Peer::is_message_accepted(&RuntimeOrigin::Root, &[0, 0, 0, 0], Some([2; 32])));
    assert!(!Peer::is_message_accepted(&RuntimeOrigin::Root, &[0, 0, 0, 0], None));
    assert!(!Peer::is_message_accepted(&RuntimeOrigin::Other, &[0, 0, 0, 0], Some([2; 32])));
    assert!(!Peer::is_message_accepted(&RuntimeOrigin::XcmHere, &[0, 0, 0, 2], None));
    assert_eq!(Peer::maximal_pending_messages_at_outbound_lane(), u64::MAX);
}

#[test]
fn bridge_sends_check_acceptance_first() {
    let mut lane = OutboundLane::new([0, 0, 0, 0]);
    assert_eq!(Peer::send_message(&mut lane, &RuntimeOrigin::Other, None, vec![1], 0, 5), Err(SendError::NotAccepted));
    assert_eq!(Peer::send_message(&mut lane, &RuntimeOrigin::XcmHere, None, vec![1], 0, 5), Ok(1));
    assert_eq!(Peer::send_message(&mut lane, &RuntimeOrigin::Signed([1; 32]), None, vec![0u8; 2_621_441], 0, 5), Err(SendError::PayloadTooLarge));
    assert_eq!(lane.state.latest_generated_nonce, 1);
    let mut other = OutboundLane::new([0, 0, 0, 1]);
    let this_chain = substrate_runtime::Substrate::send_message;
    assert_eq!(this_chain(&mut other, &RuntimeOrigin::XcmHere, None, vec![1], 0, 5), Err(SendError::NotAccepted));
    assert_eq!(this_chain(&mut other, &RuntimeOrigin::Signed([1; 32]), None, vec![1], 0, 5), Ok(1));
    assert_eq!(this_chain(&mut other, &RuntimeOrigin::Signed([1; 32]), None, vec![0u8; 1_048_577], 0, 5), Err(SendError::PayloadTooLarge));
}

#[test]
fn substrate_accepts_messages_from_linked_accounts() {
    assert!(substrate_runtime::Substrate::is_message_accepted(&RuntimeOrigin::Signed([1; 32]), &[0, 0, 0, 1], None));
    assert!(!substrate_runtime::Substrate::is_message_accepted(&RuntimeOrigin::Signed([1; 32]), &[1, 0, 0, 0], None));
    assert!(!substrate_runtime::Substrate::is_message_accepted(&RuntimeOrigin::Root, &[0, 0, 0, 0], None));
    assert!(substrate_runtime::Substrate::is_message_accepted(&RuntimeOrigin::Root, &[0, 0, 0, 0], Some([2; 32])));
    assert!(substrate_runtime::Substrate::is_message_accepted(&RuntimeOrigin::Unsigned, &[0, 0, 0, 0], Some([2; 32])));
    assert!(!substrate_runtime::Substrate::is_message_accepted(&RuntimeOrigin::Other, &[0, 0, 0, 0], Some([2; 32])));
    assert_eq!(RuntimeOrigin::Signed([3; 32]).linked_account(Some([2; 32])), Some([3; 32]));
}

#[test]
fn delivery_estimates() {
    let payload = vec![0u8; 200];
    let tx = Substrate::estimate_delivery_transaction(&payload, false, 1_000);
    assert_eq!(tx.dispatch_weight, 25_000 * 72 + 1_500_000_000 - 600_000_000 + 1_000);
    assert_eq!(tx.size, 200 + 1024 + 104);
    let tx = Substrate::estimate_delivery_transaction(&payload, true, 1_000);
    assert_eq!(tx.dispatch_weight, 25_000 * 72 + 1_500_000_000 + 1_000);
    let short = Substrate::estimate_delivery_transaction(&vec![1, 2, 3], true, 0);
    assert_eq!(short.dispatch_weight, 1_500_000_000);
    assert_eq!(short.size, 3 + 1024 + 104);
    let back = substrate_runtime::Peer::estimate_delivery_transaction(&payload, false, 0);
    assert_eq!(back.size, 200 + 1024 + 103);
}

#[test]
fn delivery_estimate_saturates() {
    let mut heavy = substrate_chain();
    heavy.additional_message_byte_delivery_weight = u64::MAX;
    let tx = estimate_delivery_transaction(&peer_chain(), &heavy, &vec![0u8; 200], true, 5);
    assert_eq!(tx.dispatch_weight, u64::MAX);
    let mut light = substrate_chain();
    light.default_message_delivery_tx_weight = 0;
    let tx = estimate_delivery_transaction(&peer_chain(), &light, &vec![0u8; 10], false, 5);
    assert_eq!(tx.dispatch_weight, 5);
}

#[test]
fn confirmation_estimates() {
    let tx = Peer::estimate_delivery_confirmation_transaction();
    assert_eq!(tx.dispatch_weight, 2_000_000_000);
    assert_eq!(tx.size, 68 + 1024 + 103);
    let tx = substrate_runtime::Substrate::estimate_delivery_confirmation_transaction();
    assert_eq!(tx.size, 68 + 1024 + 104);
    assert_eq!(InboundLaneState::encoded_size_hint(32, 2), Some(20 + 2 * 48));
    assert_eq!(InboundLaneState::encoded_size_hint(u32::MAX, 2), None);
}

#[test]
fn weight_limits_and_message_checks() {
    let payload = vec![0u8; 10];
    assert_eq!(Substrate::message_weight_limits(&payload), (0, 749_937_500_000));
    assert!(Substrate::verify_dispatch_weight(&payload));
    assert_eq!(Substrate::maximal_extrinsic_size(), 3_932_160);
    assert_eq!(maximal_incoming_message_size(3_932_160), 2_621_440);
    assert_eq!(Substrate::verify_message(&payload), Ok(()));
    assert_eq!(Substrate::verify_message(&vec![0u8; 2_621_441]), Err(VerifyMessageError::TooLarge));
    assert_eq!(substrate_runtime::Peer::verify_message(&vec![0u8; 1_048_577]), Err(VerifyMessageError::TooLarge));
}

#[test]
fn policy_refusals_leave_lane_unchanged() {
    let s = substrate_chain();
    let mut lane = OutboundLane::new([0, 0, 0, 0]);
    assert_eq!(send_message(&mut lane, false, &s, vec![1], 0, 1, 10), Err(SendError::NotAccepted));
    assert_eq!(send_message(&mut lane, true, &s, vec![1], 749_937_500_001, 1, 10), Err(SendError::DispatchWeightOutOfLimits));
    assert_eq!(send_message(&mut lane, true, &s, vec![0u8; 2_621_441], 0, 1, 10), Err(SendError::PayloadTooLarge));
    assert_eq!(lane.state.latest_generated_nonce, 0);
    assert_eq!(send_message(&mut lane, true, &s, vec![1], 749_937_500_000, 1, 10), Ok(1));
}

#[test]
fn parameter_updates_are_saved() {
    let mut store = ParameterStore::new();
    let rate = FixedRate::from_inner(3 * FIXED_DIV);
    PeerToSubstrateMessagesParameter::SubstrateToPeerConversionRate(rate).save(&mut store);
    assert_eq!(store.conversion_rate, rate);
    assert_eq!(store.fee_multiplier, FixedRate::one());
    let mut other = ParameterStore::new();
    substrate_runtime::SubstrateToPeerMessagesParameter::PeerToSubstrateConversionRate(rate).save(&mut other);
    assert_eq!(other.conversion_rate, rate);
}

#[test]
fn client_chain_constants() {
    assert_eq!(Substrate2::max_extrinsic_size(), 3_932_160);
    assert_eq!(Substrate2::max_extrinsic_weight(), 1_499_875_000_000);
    assert_eq!(Substrate2::storage_proof_overhead(), 1024);
    assert_eq!(Substrate2::maximal_encoded_account_id_size(), 32);
    assert_eq!(Substrate2::average_block_interval_secs(), 5);
    assert_eq!(WithSubstrateMessageBridge::relayer_fee_percent(), 10);
    assert_eq!(WithSubstrateMessageBridge::this_chain_id(), *b"peer");
    assert_eq!(WithSubstrateMessageBridge::bridged_chain_id(), *b"subs");
}
