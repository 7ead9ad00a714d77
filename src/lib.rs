//! Message lanes between two bridged chains: fee model, lane state machine,
//! proof checks, bridge policies and the relay decisions around them.

mod bridge;
mod calls;
mod chains;
mod fee;
mod finality;
mod lane;
pub mod peer_runtime;
mod policy;
mod proofs;
mod relay;
pub mod substrate_runtime;
mod wire;

pub use fee::{
    bridged_balance_to_this_balance, mul_int_spec, saturating_mul_u128, sat_u128,
    transaction_payment, transaction_payment_spec, weight_to_fee, weight_to_fee_spec, Balance,
    FixedRate, MessageTransaction, Weight, FIXED_DIV, lemma_fee_monotonic,
    lemma_conversion_exact_or_saturated, rate_from_rational, rate_mul,
};
pub use lane::{
    confirm_spec, lemma_queue_ends_ordered, pruned_queue, queue_covers, receive_spec,
    reward_of, rewards_in, send_spec, AccountId, ConfirmError, DeliveryConfirmation,
    InboundLane, InboundLaneState, LaneId, ids_equal, Message, MessageNonce, OutboundLane,
    OutboundLaneState, ReceiveError, SendError, UnrewardedRelayer, lane_ordered, lane_run,
    lane_start, lane_step, lemma_lane_order_reachable, lemma_lane_step_keeps_order,
    lemma_sent_nonces_gapless, sent_nonces, LaneEvent, LaneSnapshot, receive_outcome,
    state_update_outcome, confirm_outcome, lemma_receive_only_next_nonces, lane_snapshot,
    lemma_send_is_lane_step, lemma_receive_is_lane_step, lemma_confirm_is_lane_step,
    lemma_prune_is_lane_step,
};
pub use bridge::{
    check_config_integrity, BridgeConfig, FullBridge, PeerFinalityToSubstrate,
    PeerMessagesToSubstrate, RelayHeaders, RelayHeadersBridge, Substrate2,
    SubstrateMessagesToPeer, PEER_TO_SUBSTRATE_INDEX, SUBSTRATE_TO_PEER_INDEX,
};
pub use chains::{
    check_bridge_integrity, integrity_error_spec, peer_chain, peer_chain_id, peer_chain_spec,
    peer_lane_config, substrate_chain, substrate_chain_id, substrate_chain_spec,
    substrate_lane_config, ChainId, IntegrityError, LaneConfig, ParameterStore,
    RELAYER_FEE_PERCENT,
};
pub use finality::{
    decide_on_poll, finality_step, lemma_mandatory_header_submitted,
    lemma_submits_only_fresh_headers, select_header, select_header_spec, FinalityAction,
    FinalityEvent, FinalityPoll, FinalitySync, FinalitySyncState,
};
pub use policy::{
    chain_transaction_payment, delivery_size_spec, delivery_weight_spec,
    estimate_delivery_confirmation_transaction, estimate_delivery_transaction, is_open_lane,
    maximal_incoming_message_dispatch_weight, maximal_incoming_message_dispatch_weight_spec,
    maximal_incoming_message_size, maximal_incoming_message_size_spec, message_weight_limits,
    open_lane, send_message, send_through_policy_spec, policy_send_outcome,
    lemma_delivery_estimate_monotonic, verify_chain_message, ChainDescriptor,
    RuntimeOrigin, VerifyMessageError, EXPECTED_DEFAULT_MESSAGE_LENGTH,
};
pub use proofs::{
    check_inbound_state, delivery_proof_error, delivery_proof_outcome, hashes_equal,
    header_ids_equal, messages_proof_error, messages_proof_outcome, range_len, payload_total,
    lemma_messages_proof_reads_stored_messages, lemma_delivery_proof_reads_stored_state,
    verify_messages_delivery_proof, verify_messages_proof, BlockHash, HeaderChain, HeaderId,
    ImportError, ImportedHeader, MessagesDeliveryProof, MessagesProof, MessagesStorage,
    DeliveryStorage, first_root, read_inbound_value,
    ProvedMessages, VerificationError,
};
pub use relay::{
    batch_fits, decide_confirmation, decide_delivery, first_undelivered, weight_prefix,
    ConfirmationDecision, DeliveryDecision, DeliveryLimits, LaneScan, RelayStrategy,
};
pub use wire::{
    decode_message, encode_message, inbound_bytes, inbound_size_hint_spec, message_bytes,
    outbound_bytes, read_u128, read_u32, read_u64, push_u128, push_u32, push_u64,
    INBOUND_HEADER_SIZE, RELAYER_ENTRY_SIZE, lemma_inbound_round_trip, lemma_message_round_trip,
    lemma_outbound_round_trip,
};
pub use calls::{
    proved_received_nonce, receive_messages_delivery_proof, receive_messages_proof,
    receive_proof_steps,
    ConfirmProofError, ReceiveProofError,
};
