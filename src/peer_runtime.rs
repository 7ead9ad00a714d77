//! The bridge as the peer chain runs it: the peer chain sends messages to the
//! substrate chain and receives messages from it.

use crate::chains::{check_bridge_integrity, IntegrityError, peer_lane_config, peer_chain, peer_chain_spec, substrate_chain, substrate_chain_spec, ChainId, ParameterStore, peer_chain_id, substrate_chain_id, RELAYER_FEE_PERCENT};
use crate::fee::{bridged_balance_to_this_balance, mul_int_spec, rate_from_rational, rate_mul, transaction_payment_spec, from_rational_spec, Balance, FixedRate, MessageTransaction, Weight};
use crate::lane::{AccountId, InboundLaneState, LaneId, MessageNonce, OutboundLane, SendError};
use crate::policy::{
    chain_transaction_payment, delivery_size_spec, delivery_weight_spec, estimate_delivery_confirmation_transaction,
    estimate_delivery_transaction, is_open_lane, maximal_incoming_message_dispatch_weight_spec,
    maximal_incoming_message_size_spec, maximal_incoming_message_size, message_weight_limits, open_lane, verify_chain_message,
    RuntimeOrigin, VerifyMessageError, policy_send_outcome, send_message,
};
use crate::proofs::{
    verify_messages_delivery_proof, verify_messages_proof, delivery_proof_outcome, messages_proof_outcome, HeaderChain, MessagesDeliveryProof,
    MessagesProof, MessagesStorage, ProvedMessages, VerificationError, DeliveryStorage,
};
use vstd::prelude::*;

verus! {

/// Whether the peer chain accepts a message from `origin` on `lane`: only on
/// an open lane, and only from the designated XCM caller or from an origin
/// with a linked account.
pub open spec fn peer_accepts(origin: RuntimeOrigin, lane: LaneId, root_account_for_payments: Option<AccountId>) -> bool {
    is_open_lane(lane) && (origin is XcmHere || origin.linked_account_spec(root_account_for_payments) is Some)
}

/// The peer to substrate message bridge.
#[derive(Clone, Copy, Debug, PartialEq, Eq, Structural)]
pub struct WithSubstrateMessageBridge;

impl WithSubstrateMessageBridge {
    /// Share of a delivery's fee that goes to the relayer, in percent.
    pub fn relayer_fee_percent() -> (r: u32)
        ensures
            r == RELAYER_FEE_PERCENT,
    {
        RELAYER_FEE_PERCENT
    }

    /// This chain: the peer chain.
    pub fn this_chain_id() -> (r: ChainId)
        ensures
            r == [0x70u8, 0x65u8, 0x65u8, 0x72u8],
    {
        peer_chain_id()
    }

    /// The bridged chain: the substrate chain.
    pub fn bridged_chain_id() -> (r: ChainId)
        ensures
            r == [0x73u8, 0x75u8, 0x62u8, 0x73u8],
    {
        substrate_chain_id()
    }

    /// Checks this chain's bridge constants against the bridged chain; the
    /// shipped constants pass.
    pub fn check_integrity() -> (r: Result<(), IntegrityError>)
        ensures
            r is Ok,
    {
        let this_chain = peer_chain();
        let bridged = substrate_chain();
        let lane = peer_lane_config();
        check_bridge_integrity(&peer_chain_id(), &substrate_chain_id(), &this_chain, &bridged, &lane)
    }

    /// Converts a substrate balance to peer units at the override rate, or
    /// else at the stored substrate to peer rate: rounded down, saturating.
    pub fn bridged_balance_to_this_balance(
        bridged_balance: Balance,
        rate_override: Option<FixedRate>,
        parameters: &ParameterStore,
    ) -> (r: Balance)
        ensures
            r == mul_int_spec(
                (match rate_override {
                    Some(rate) => rate,
                    None => parameters.conversion_rate,
                }).inner as int,
                bridged_balance as int,
            ),
    {
        bridged_balance_to_this_balance(bridged_balance, rate_override, parameters.conversion_rate)
    }
}

/// The peer chain, the sending end of this bridge.
#[derive(Clone, Copy, Debug, PartialEq, Eq, Structural)]
pub struct Peer;

impl Peer {
    /// Messages are accepted on the two open lanes, from this chain's own
    /// location sending through XCM, or from an origin with a linked account
    /// that pays for them.
    pub fn is_message_accepted(
        send_origin: &RuntimeOrigin,
        lane: &LaneId,
        root_account_for_payments: Option<AccountId>,
    ) -> (r: bool)
        ensures
            r == peer_accepts(*send_origin, *lane, root_account_for_payments),
    {
        let designated = match send_origin {
            RuntimeOrigin::XcmHere => true,
            _ => false,
        };
        (designated || send_origin.linked_account(root_account_for_payments).is_some()) && open_lane(lane)
    }

    /// Sends a message on `lane` from `send_origin`: this chain's acceptance
    /// check comes first, then the bridged chain's weight and size limits,
    /// then the lane's capacity, which this chain does not bound.
    pub fn send_message(
        lane: &mut OutboundLane,
        send_origin: &RuntimeOrigin,
        root_account_for_payments: Option<AccountId>,
        payload: Vec<u8>,
        dispatch_weight: Weight,
        fee: Balance,
    ) -> (r: Result<MessageNonce, SendError>)
        requires
            old(lane).wf(),
        ensures
            final(lane).wf(),
            policy_send_outcome(
                *old(lane),
                *final(lane),
                peer_accepts(*send_origin, old(lane).lane, root_account_for_payments),
                substrate_chain_spec(),
                payload,
                dispatch_weight,
                fee,
                u64::MAX,
                r,
            ),
    {
        let accepted = Peer::is_message_accepted(send_origin, &lane.lane, root_account_for_payments);
        let bridged = substrate_chain();
        send_message(lane, accepted, &bridged, payload, dispatch_weight, fee, Peer::maximal_pending_messages_at_outbound_lane())
    }

    /// No bound on unconfirmed messages at an outbound lane.
    pub fn maximal_pending_messages_at_outbound_lane() -> (r: MessageNonce)
        ensures
            r == u64::MAX,
    {
        u64::MAX
    }

    /// The transaction that confirms one delivery at the peer chain.
    pub fn estimate_delivery_confirmation_transaction() -> (r: MessageTransaction)
        ensures
            r.dispatch_weight == peer_chain_spec().max_single_message_delivery_confirmation_tx_weight,
            r.size == 68 + 1024 + 103,
    {
        let this_chain = peer_chain();
        let bridged = substrate_chain();
        estimate_delivery_confirmation_transaction(&this_chain, &bridged)
    }

    /// The fee of a transaction at the peer chain. The transaction may land
    /// later, when the multiplier is larger, so the chain's next multiplier is
    /// raised by a tenth.
    pub fn transaction_payment(transaction: MessageTransaction, next_fee_multiplier: FixedRate) -> (r: Balance)
        ensures
            r == transaction_payment_spec(
                peer_chain_spec().base_extrinsic_weight as int,
                1,
                1,
                mul_int_spec(from_rational_spec(110, 100), next_fee_multiplier.inner as int),
                transaction.dispatch_weight as int,
                transaction.size as int,
            ),
    {
        let multiplier = rate_mul(rate_from_rational(110, 100), next_fee_multiplier);
        let chain = peer_chain();
        chain_transaction_payment(&chain, multiplier, transaction)
    }
}

/// The substrate chain, the receiving end of this bridge.
#[derive(Clone, Copy, Debug, PartialEq, Eq, Structural)]
pub struct Substrate;

impl Substrate {
    /// Largest extrinsic of the substrate chain.
    pub fn maximal_extrinsic_size() -> (r: u32)
        ensures
            r == substrate_chain_spec().max_extrinsic_size,
    {
        substrate_chain().max_extrinsic_size
    }

    /// Every declared dispatch weight is taken.
    pub fn verify_dispatch_weight(_message_payload: &Vec<u8>) -> (r: bool)
        ensures
            r,
    {
        true
    }

    /// Dispatch weights that a message to the substrate chain may declare:
    /// none below zero, none above half its largest extrinsic weight.
    pub fn message_weight_limits(_message_payload: &Vec<u8>) -> (r: (Weight, Weight))
        ensures
            r.0 == 0,
            r.1 == maximal_incoming_message_dispatch_weight_spec(substrate_chain_spec().max_extrinsic_weight as int),
    {
        let bridged = substrate_chain();
        message_weight_limits(&bridged)
    }

    /// The transaction that delivers one message to the substrate chain.
    pub fn estimate_delivery_transaction(
        message_payload: &Vec<u8>,
        include_pay_dispatch_fee_cost: bool,
        message_dispatch_weight: Weight,
    ) -> (r: MessageTransaction)
        ensures
            r.dispatch_weight == delivery_weight_spec(
                substrate_chain_spec(),
                message_payload@.len() as int,
                include_pay_dispatch_fee_cost,
                message_dispatch_weight as int,
            ),
            r.size == delivery_size_spec(peer_chain_spec(), substrate_chain_spec(), message_payload@.len() as int),
    {
        let source = peer_chain();
        let bridged = substrate_chain();
        estimate_delivery_transaction(&source, &bridged, message_payload, include_pay_dispatch_fee_cost, message_dispatch_weight)
    }

    /// The fee of a transaction at the substrate chain, at the multiplier
    /// that this chain keeps for it.
    pub fn transaction_payment(transaction: MessageTransaction, parameters: &ParameterStore) -> (r: Balance)
        ensures
            r == transaction_payment_spec(
                substrate_chain_spec().base_extrinsic_weight as int,
                1,
                1,
                parameters.fee_multiplier.inner as int,
                transaction.dispatch_weight as int,
                transaction.size as int,
            ),
    {
        let chain = substrate_chain();
        chain_transaction_payment(&chain, parameters.fee_multiplier, transaction)
    }

    /// Checks a payload before it is sent: it must fit the substrate chain.
    pub fn verify_message(payload: &Vec<u8>) -> (r: Result<(), VerifyMessageError>)
        ensures
            r is Ok <==> payload@.len() <= maximal_incoming_message_size_spec(substrate_chain_spec().max_extrinsic_size as int),
            r is Err ==> r == Err::<(), VerifyMessageError>(VerifyMessageError::TooLarge),
    {
        if !Substrate::verify_dispatch_weight(payload) {
            return Err(VerifyMessageError::IncorrectDispatchWeight);
        }
        let bridged = substrate_chain();
        verify_chain_message(&bridged, payload)
    }

    /// Checks a proof of the substrate chain's inbound lane state.
    pub fn verify_messages_delivery_proof(
        proof: &MessagesDeliveryProof,
        headers: &HeaderChain,
        read: Option<DeliveryStorage>,
    ) -> (r: Result<(LaneId, InboundLaneState), VerificationError>)
        ensures
            delivery_proof_outcome(*proof, headers.root_of(proof.header), read, r),
    {
        verify_messages_delivery_proof(proof, headers, read)
    }

    /// Checks a proof of messages that the substrate chain sent to this one,
    /// allowing as many messages as the peer chain's inbound lane may hold
    /// and as many payload bytes as the largest message it takes.
    pub fn verify_messages_proof(
        proof: &MessagesProof,
        messages_count: u32,
        headers: &HeaderChain,
        read: Option<MessagesStorage>,
    ) -> (r: Result<ProvedMessages, VerificationError>)
        ensures
            messages_proof_outcome(
                *proof,
                headers.root_of(proof.header),
                read,
                messages_count,
                peer_chain_spec().max_unconfirmed_messages_in_confirmation_tx,
                maximal_incoming_message_size_spec(peer_chain_spec().max_extrinsic_size as int) as u64,
                r,
            ),
    {
        let this_chain = peer_chain();
        let max_total_size = maximal_incoming_message_size(this_chain.max_extrinsic_size) as u64;
        verify_messages_proof(
            proof,
            headers,
            read,
            messages_count,
            this_chain.max_unconfirmed_messages_in_confirmation_tx,
            max_total_size,
        )
    }
}

/// Parameters of the peer to substrate bridge that privileged calls update.
#[derive(Clone, Copy, Debug, PartialEq, Eq, Structural)]
pub enum PeerToSubstrateMessagesParameter {
    /// Peer balance per unit of substrate balance.
    SubstrateToPeerConversionRate(FixedRate),
}

impl PeerToSubstrateMessagesParameter {
    /// Stores the parameter.
    pub fn save(&self, store: &mut ParameterStore)
        ensures
            match *self {
                PeerToSubstrateMessagesParameter::SubstrateToPeerConversionRate(rate) => *final(store)
                    == (ParameterStore { conversion_rate: rate, ..*old(store) }),
            },
    {
        match self {
            PeerToSubstrateMessagesParameter::SubstrateToPeerConversionRate(rate) => {
                store.conversion_rate = *rate;
            },
        }
    }
}

} // verus!
