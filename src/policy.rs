//! Static facts about a chain and the rules that bind two chains into one
//! directed bridge: which messages are accepted, their weight and size bounds,
//! and what delivering or confirming them costs.

use crate::fee::{transaction_payment, transaction_payment_spec, FixedRate, MessageTransaction, Weight, Balance};
use crate::lane::{ids_equal, AccountId, LaneId, MessageNonce, OutboundLane, SendError, send_spec, Message};
use vstd::arithmetic::mul::lemma_mul_inequality;
use vstd::prelude::*;

verus! {

/// Payload length that the default delivery weight already pays for.
pub const EXPECTED_DEFAULT_MESSAGE_LENGTH: u32 = 128;

/// Static per-chain facts that the bridge reads.
#[derive(Clone, Copy, Debug, PartialEq, Eq, Structural)]
pub struct ChainDescriptor {
    /// Largest extrinsic that the chain takes, in bytes.
    pub max_extrinsic_size: u32,
    /// Largest weight of one extrinsic.
    pub max_extrinsic_weight: Weight,
    /// Largest encoded size of an account identifier.
    pub maximal_encoded_account_id_size: u32,
    /// Bytes that a storage proof of this chain adds beyond the proved values.
    pub extra_storage_proof_size: u32,
    /// Bytes that a signed transaction adds beyond its call.
    pub tx_extra_bytes: u32,
    /// Weight of an empty extrinsic, charged for every transaction.
    pub base_extrinsic_weight: Weight,
    /// Weight of delivering one message of the default length.
    pub default_message_delivery_tx_weight: Weight,
    /// Weight of each payload byte beyond the default length.
    pub additional_message_byte_delivery_weight: Weight,
    /// Weight of confirming the delivery of one message.
    pub max_single_message_delivery_confirmation_tx_weight: Weight,
    /// Weight of paying the dispatch fee of an inbound message at this chain.
    pub pay_inbound_dispatch_fee_weight: Weight,
    /// Most unrewarded relayer entries that one confirmation may carry.
    pub max_unrewarded_relayers_in_confirmation_tx: MessageNonce,
    /// Most unconfirmed messages that one confirmation may carry.
    pub max_unconfirmed_messages_in_confirmation_tx: MessageNonce,
}

/// The origin of a call that sends a message.
#[derive(Clone, Copy, Debug, PartialEq, Eq)]
pub enum RuntimeOrigin {
    /// A signed call of an account.
    Signed(AccountId),
    /// The root origin.
    Root,
    /// An unsigned call.
    Unsigned,
    /// A message executed on behalf of this chain's own location.
    XcmHere,
    /// Any other origin.
    Other,
}

impl RuntimeOrigin {
    /// The account that pays for a message from this origin: the signer, or
    /// for root and unsigned calls the account configured to pay for them.
    pub open spec fn linked_account_spec(self, root_account_for_payments: Option<AccountId>) -> Option<AccountId> {
        match self {
            RuntimeOrigin::Signed(a) => Some(a),
            RuntimeOrigin::Root | RuntimeOrigin::Unsigned => root_account_for_payments,
            _ => None,
        }
    }

    /// The account that pays for a message from this origin, if any.
    pub fn linked_account(&self, root_account_for_payments: Option<AccountId>) -> (r: Option<AccountId>)
        ensures
            r == self.linked_account_spec(root_account_for_payments),
    {
        match self {
            RuntimeOrigin::Signed(a) => Some(*a),
            RuntimeOrigin::Root | RuntimeOrigin::Unsigned => root_account_for_payments,
            _ => None,
        }
    }
}

/// The lanes `00000000` and `00000001`, the two that the bridge opens.
pub open spec fn is_open_lane(lane: LaneId) -> bool {
    lane == [0u8, 0u8, 0u8, 0u8] || lane == [0u8, 0u8, 0u8, 1u8]
}

/// Whether `lane` is one of the lanes that the bridge opens.
pub fn open_lane(lane: &LaneId) -> (r: bool)
    ensures
        r == is_open_lane(*lane),
{
    let xcm_lane: LaneId = [0, 0, 0, 0];
    let second_lane: LaneId = [0, 0, 0, 1];
    ids_equal(lane, &xcm_lane) || ids_equal(lane, &second_lane)
}

/// The heaviest dispatch that an incoming message may declare: half of the
/// largest extrinsic weight, keeping room for the delivery itself.
pub open spec fn maximal_incoming_message_dispatch_weight_spec(max_extrinsic_weight: int) -> int {
    max_extrinsic_weight / 2
}

/// The heaviest dispatch that an incoming message may declare.
pub fn maximal_incoming_message_dispatch_weight(max_extrinsic_weight: Weight) -> (r: Weight)
    ensures
        r == maximal_incoming_message_dispatch_weight_spec(max_extrinsic_weight as int),
{
    max_extrinsic_weight / 2
}

/// The largest incoming message: two thirds of the largest extrinsic, keeping
/// room for the storage proof around it.
pub open spec fn maximal_incoming_message_size_spec(max_extrinsic_size: int) -> int {
    max_extrinsic_size / 3 * 2
}

/// The largest message that the bridged chain takes, in bytes.
pub fn maximal_incoming_message_size(max_extrinsic_size: u32) -> (r: u32)
    ensures
        r == maximal_incoming_message_size_spec(max_extrinsic_size as int),
{
    max_extrinsic_size / 3 * 2
}

/// The range of dispatch weights that a message to `bridged` may declare,
/// whatever its payload: from zero to the largest incoming dispatch weight.
pub fn message_weight_limits(bridged: &ChainDescriptor) -> (r: (Weight, Weight))
    ensures
        r.0 == 0,
        r.1 == maximal_incoming_message_dispatch_weight_spec(bridged.max_extrinsic_weight as int),
{
    (0, maximal_incoming_message_dispatch_weight(bridged.max_extrinsic_weight))
}

/// Why a message payload is refused before it is sent.
#[derive(Clone, Copy, Debug, PartialEq, Eq, Structural)]
pub enum VerifyMessageError {
    /// The declared dispatch weight is refused.
    IncorrectDispatchWeight,
    /// The payload exceeds the largest message that the bridged chain takes.
    TooLarge,
}

/// Checks a payload against the bridged chain: it must not exceed the largest
/// incoming message.
pub fn verify_chain_message(bridged: &ChainDescriptor, payload: &Vec<u8>) -> (r: Result<(), VerifyMessageError>)
    ensures
        r is Ok <==> payload@.len() <= maximal_incoming_message_size_spec(bridged.max_extrinsic_size as int),
        r is Err ==> r == Err::<(), VerifyMessageError>(VerifyMessageError::TooLarge),
{
    let max_size = maximal_incoming_message_size(bridged.max_extrinsic_size);
    if payload.len() as u64 > max_size as u64 {
        Err(VerifyMessageError::TooLarge)
    } else {
        Ok(())
    }
}

/// `x` as a `u32`, or `u32::MAX` where it does not fit.
pub open spec fn sat_u32(x: int) -> int {
    if x > u32::MAX {
        u32::MAX as int
    } else {
        x
    }
}

/// `x` as a `u64`, or `u64::MAX` where it does not fit; never below zero.
pub open spec fn sat_u64(x: int) -> int {
    if x > u64::MAX {
        u64::MAX as int
    } else if x < 0 {
        0
    } else {
        x
    }
}

fn saturating_mul_u64(a: u64, b: u64) -> (r: u64)
    ensures
        r == sat_u64(a * b),
{
    proof {
        assert(0 <= a * b) by (nonlinear_arith);
    }
    match a.checked_mul(b) {
        Some(p) => p,
        None => u64::MAX,
    }
}

/// The weight of delivering one message, as the target chain `bridged`
/// charges it.
pub open spec fn delivery_weight_spec(
    bridged: ChainDescriptor,
    payload_len: int,
    include_pay_dispatch_fee_cost: bool,
    message_dispatch_weight: int,
) -> int {
    let len = sat_u32(payload_len);
    let extra_bytes = if len > EXPECTED_DEFAULT_MESSAGE_LENGTH {
        len - EXPECTED_DEFAULT_MESSAGE_LENGTH
    } else {
        0
    };
    let w1 = sat_u64(bridged.additional_message_byte_delivery_weight * extra_bytes);
    let w2 = sat_u64(w1 + bridged.default_message_delivery_tx_weight);
    let w3 = sat_u64(
        w2 - if include_pay_dispatch_fee_cost {
            0
        } else {
            bridged.pay_inbound_dispatch_fee_weight as int
        },
    );
    sat_u64(w3 + message_dispatch_weight)
}

/// The size of a transaction that delivers one message: the payload, the
/// source's storage proof overhead and the target's transaction overhead.
pub open spec fn delivery_size_spec(source: ChainDescriptor, bridged: ChainDescriptor, payload_len: int) -> int {
    sat_u32(sat_u32(sat_u32(payload_len) + source.extra_storage_proof_size) + bridged.tx_extra_bytes)
}

/// The delivery estimate never decreases when the message grows: a longer
/// payload or a larger declared dispatch weight gives a weight and a size at
/// least as large.
pub proof fn lemma_delivery_estimate_monotonic(
    source: ChainDescriptor,
    bridged: ChainDescriptor,
    include_pay_dispatch_fee_cost: bool,
    payload_len: int,
    larger_payload_len: int,
    dispatch_weight: int,
    larger_dispatch_weight: int,
)
    requires
        0 <= payload_len <= larger_payload_len,
        0 <= dispatch_weight <= larger_dispatch_weight,
    ensures
        delivery_weight_spec(bridged, payload_len, include_pay_dispatch_fee_cost, dispatch_weight)
            <= delivery_weight_spec(
            bridged,
            larger_payload_len,
            include_pay_dispatch_fee_cost,
            larger_dispatch_weight,
        ),
        delivery_size_spec(source, bridged, payload_len) <= delivery_size_spec(
            source,
            bridged,
            larger_payload_len,
        ),
{
    let extra = |len: int|
        if sat_u32(len) > EXPECTED_DEFAULT_MESSAGE_LENGTH {
            sat_u32(len) - EXPECTED_DEFAULT_MESSAGE_LENGTH
        } else {
            0
        };
    let a = bridged.additional_message_byte_delivery_weight as int;
    assert(0 <= extra(payload_len) <= extra(larger_payload_len));
    lemma_mul_inequality(extra(payload_len), extra(larger_payload_len), a);
    assert(a * extra(payload_len) == extra(payload_len) * a) by (nonlinear_arith);
    assert(a * extra(larger_payload_len) == extra(larger_payload_len) * a) by (nonlinear_arith);
}

/// Estimates the transaction that delivers a message with this payload from
/// `source` to `bridged`, every step saturating.
pub fn estimate_delivery_transaction(
    source: &ChainDescriptor,
    bridged: &ChainDescriptor,
    payload: &Vec<u8>,
    include_pay_dispatch_fee_cost: bool,
    message_dispatch_weight: Weight,
) -> (r: MessageTransaction)
    ensures
        r.dispatch_weight == delivery_weight_spec(
            *bridged,
            payload@.len() as int,
            include_pay_dispatch_fee_cost,
            message_dispatch_weight as int,
        ),
        r.size == delivery_size_spec(*source, *bridged, payload@.len() as int),
{
    let message_payload_len: u32 = if payload.len() as u64 > u32::MAX as u64 {
        u32::MAX
    } else {
        payload.len() as u32
    };
    let extra_bytes_in_payload = message_payload_len.saturating_sub(EXPECTED_DEFAULT_MESSAGE_LENGTH);
    let pay_fee_weight = if include_pay_dispatch_fee_cost {
        0
    } else {
        bridged.pay_inbound_dispatch_fee_weight
    };
    let dispatch_weight = saturating_mul_u64(
        bridged.additional_message_byte_delivery_weight,
        extra_bytes_in_payload as u64,
    ).saturating_add(bridged.default_message_delivery_tx_weight).saturating_sub(
        pay_fee_weight,
    ).saturating_add(message_dispatch_weight);
    let size = message_payload_len.saturating_add(source.extra_storage_proof_size).saturating_add(
        bridged.tx_extra_bytes,
    );
    MessageTransaction { dispatch_weight, size }
}

/// Estimates the transaction that confirms the delivery of one message at
/// `this_chain`: it carries a proof of the inbound lane state of `bridged`
/// with one relayer entry.
pub fn estimate_delivery_confirmation_transaction(
    this_chain: &ChainDescriptor,
    bridged: &ChainDescriptor,
) -> (r: MessageTransaction)
    ensures
        r.dispatch_weight == this_chain.max_single_message_delivery_confirmation_tx_weight,
        r.size == sat_u32(
            sat_u32(
                match crate::wire::inbound_size_hint_spec(
                    this_chain.maximal_encoded_account_id_size as int,
                    1,
                ) {
                    Some(n) => n as int,
                    None => u32::MAX as int,
                } + bridged.extra_storage_proof_size,
            ) + this_chain.tx_extra_bytes,
        ),
{
    let inbound_data_size = match crate::lane::InboundLaneState::encoded_size_hint(
        this_chain.maximal_encoded_account_id_size,
        1,
    ) {
        Some(n) => n,
        None => u32::MAX,
    };
    MessageTransaction {
        dispatch_weight: this_chain.max_single_message_delivery_confirmation_tx_weight,
        size: inbound_data_size.saturating_add(bridged.extra_storage_proof_size).saturating_add(
            this_chain.tx_extra_bytes,
        ),
    }
}

/// The fee that `chain` charges for a transaction, where the per-byte fee and
/// the fee per weight unit are both one.
pub fn chain_transaction_payment(chain: &ChainDescriptor, multiplier: FixedRate, transaction: MessageTransaction) -> (r: Balance)
    ensures
        r == transaction_payment_spec(
            chain.base_extrinsic_weight as int,
            1,
            1,
            multiplier.inner as int,
            transaction.dispatch_weight as int,
            transaction.size as int,
        ),
{
    transaction_payment(chain.base_extrinsic_weight, 1, 1, multiplier, transaction)
}

/// The outcome of sending a message through the lane policy: the acceptance
/// predicate first, then the declared dispatch weight, then the payload size,
/// then the lane's own capacity.
pub open spec fn send_through_policy_spec(
    accepted: bool,
    bridged: ChainDescriptor,
    payload_len: int,
    dispatch_weight: int,
) -> Option<SendError> {
    if !accepted {
        Some(SendError::NotAccepted)
    } else if dispatch_weight > maximal_incoming_message_dispatch_weight_spec(bridged.max_extrinsic_weight as int) {
        Some(SendError::DispatchWeightOutOfLimits)
    } else if payload_len > maximal_incoming_message_size_spec(bridged.max_extrinsic_size as int) {
        Some(SendError::PayloadTooLarge)
    } else {
        None
    }
}

/// How sending through the lane policy changes an outbound lane: a message
/// that the policy refuses, or that the lane has no room for, changes nothing;
/// any other joins the lane under the next nonce.
pub open spec fn policy_send_outcome(
    old: OutboundLane,
    new: OutboundLane,
    accepted: bool,
    bridged: ChainDescriptor,
    payload: Vec<u8>,
    dispatch_weight: Weight,
    fee: Balance,
    max_pending: MessageNonce,
    r: Result<MessageNonce, SendError>,
) -> bool {
    match send_through_policy_spec(accepted, bridged, payload@.len() as int, dispatch_weight as int) {
        Some(e) => r == Err::<MessageNonce, SendError>(e) && new == old,
        None => match send_spec(old.state, max_pending) {
            Ok(s) => {
                &&& r == Ok::<MessageNonce, SendError>(s.latest_generated_nonce)
                &&& new.state == s
                &&& new.lane == old.lane
                &&& new.messages@ == old.messages@.push(
                    (Message { lane: old.lane, nonce: s.latest_generated_nonce, payload, fee }),
                )
            },
            Err(e) => r == Err::<MessageNonce, SendError>(e) && new == old,
        },
    }
}

/// Sends a message on `lane` once the bridge policy accepts it: `accepted` is
/// the policy's verdict on the origin and lane, and the dispatch weight and
/// payload must fit the bridged chain. A refused message changes nothing.
pub fn send_message(
    lane: &mut OutboundLane,
    accepted: bool,
    bridged: &ChainDescriptor,
    payload: Vec<u8>,
    dispatch_weight: Weight,
    fee: Balance,
    max_pending: MessageNonce,
) -> (r: Result<MessageNonce, SendError>)
    requires
        old(lane).wf(),
    ensures
        final(lane).wf(),
        policy_send_outcome(
            *old(lane),
            *final(lane),
            accepted,
            *bridged,
            payload,
            dispatch_weight,
            fee,
            max_pending,
            r,
        ),
{
    if !accepted {
        return Err(SendError::NotAccepted);
    }
    let limits = message_weight_limits(bridged);
    if dispatch_weight < limits.0 || dispatch_weight > limits.1 {
        return Err(SendError::DispatchWeightOutOfLimits);
    }
    match verify_chain_message(bridged, &payload) {
        Ok(()) => {},
        Err(_) => {
            return Err(SendError::PayloadTooLarge);
        },
    }
    lane.send_message(payload, fee, max_pending)
}

} // verus!
