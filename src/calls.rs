//! The two calls through which proofs change lane state: a target receives a
//! messages proof, and a source receives a delivery proof. Each checks the
//! proof first; a refused proof changes nothing.

use crate::lane::{
    confirm_outcome, ids_equal, receive_outcome, state_update_outcome, AccountId,
    ConfirmError, DeliveryConfirmation, InboundLane, InboundLaneState, Message, MessageNonce,
    OutboundLane, ReceiveError,
};
use crate::proofs::{
    decoded_inbound_fields, delivery_proof_error, read_inbound_value, DeliveryStorage, messages_proof_error, range_len,
    verify_messages_delivery_proof, verify_messages_proof, HeaderChain, MessagesDeliveryProof,
    MessagesProof, MessagesStorage, VerificationError,
};
use crate::wire::u64_at;
use vstd::prelude::*;

verus! {

/// Why a messages proof was not received.
#[derive(Clone, Copy, Debug, PartialEq, Eq, Structural)]
pub enum ReceiveProofError {
    /// The proof is about another lane.
    LaneMismatch,
    Verification(VerificationError),
    Receive(ReceiveError),
}

/// Why a delivery proof was not received.
#[derive(Clone, Copy, Debug, PartialEq, Eq, Structural)]
pub enum ConfirmProofError {
    Verification(VerificationError),
    /// The proof is about another lane.
    LaneMismatch,
    Confirm(ConfirmError),
}

/// The source's latest received nonce that a messages proof reveals, if it
/// carries the outbound lane state.
pub open spec fn proved_received_nonce(read: Option<MessagesStorage>) -> Option<MessageNonce> {
    match read {
        Some(st) => match st.outbound_lane_state {
            Some(v) => Some(u64_at(v@, 8)),
            None => None,
        },
        None => None,
    }
}

/// The steps of receiving a messages proof whose check passed: `msgs` are
/// the proved messages, `mid` the lane after receiving them and `rr` the
/// outcome of that; then the proved latest received nonce, if any, applies.
pub open spec fn receive_proof_steps(
    old: InboundLane,
    new: InboundLane,
    relayer: AccountId,
    proof: MessagesProof,
    read: Option<MessagesStorage>,
    max_unrewarded_relayers: MessageNonce,
    max_unconfirmed_messages: MessageNonce,
    r: Result<MessageNonce, ReceiveProofError>,
    msgs: Seq<Message>,
    mid: InboundLane,
    rr: Result<MessageNonce, ReceiveError>,
) -> bool {
    &&& msgs.len() == range_len(proof.nonces_start as int, proof.nonces_end as int)
    &&& forall|i: int|
        0 <= i < msgs.len() ==> (#[trigger] msgs[i]).nonce == proof.nonces_start + i
            && msgs[i].lane == proof.lane
    &&& (msgs.len() == 0 ==> mid == old && rr == Ok::<MessageNonce, ReceiveError>(old.state.last_delivered_nonce))
    &&& (msgs.len() > 0 ==> receive_outcome(
        old,
        mid,
        relayer,
        msgs,
        max_unrewarded_relayers,
        max_unconfirmed_messages,
        rr,
    ))
    &&& match rr {
        Err(e) => r == Err::<MessageNonce, ReceiveProofError>(ReceiveProofError::Receive(e)) && new == old,
        Ok(_) => {
            &&& r == Ok::<MessageNonce, ReceiveProofError>(new.state.last_delivered_nonce)
            &&& match proved_received_nonce(read) {
                None => new == mid,
                Some(x) => state_update_outcome(
                    mid,
                    new,
                    x,
                    if x <= mid.state.last_confirmed_nonce || x > mid.state.last_delivered_nonce {
                        None
                    } else {
                        Some(x)
                    },
                ),
            }
        },
    }
}

/// Receives a messages proof delivered by `relayer` at the target. A proof
/// about another lane is refused before anything else. The proof is checked
/// next, allowing as many messages as the lane may hold
/// unconfirmed and `max_total_size` payload bytes. Its messages, if any, must then run on from the last
/// delivered nonce; if they do not, nothing changes. Last, the source's
/// latest received nonce, where the proof carries it, confirms and prunes.
/// Returns the last delivered nonce.
pub fn receive_messages_proof(
    lane: &mut InboundLane,
    relayer: AccountId,
    proof: &MessagesProof,
    headers: &HeaderChain,
    read: Option<MessagesStorage>,
    messages_count: u32,
    max_unrewarded_relayers: MessageNonce,
    max_unconfirmed_messages: MessageNonce,
    max_total_size: u64,
) -> (r: Result<MessageNonce, ReceiveProofError>)
    requires
        old(lane).wf(),
    ensures
        final(lane).wf(),
        if proof.lane != old(lane).lane {
            r == Err::<MessageNonce, ReceiveProofError>(ReceiveProofError::LaneMismatch) && *final(lane)
                == *old(lane)
        } else {
            match messages_proof_error(
                *proof,
                headers.root_of(proof.header),
                read,
                messages_count,
                max_unconfirmed_messages,
                max_total_size,
            ) {
                Some(e) => r == Err::<MessageNonce, ReceiveProofError>(ReceiveProofError::Verification(e))
                    && *final(lane) == *old(lane),
                None => exists|msgs: Seq<Message>, mid: InboundLane, rr: Result<MessageNonce, ReceiveError>|
                    #[trigger] receive_proof_steps(
                        *old(lane),
                        *final(lane),
                        relayer,
                        *proof,
                        read,
                        max_unrewarded_relayers,
                        max_unconfirmed_messages,
                        r,
                        msgs,
                        mid,
                        rr,
                    ),
            }
        },
{
    if !ids_equal(&proof.lane, &lane.lane) {
        return Err(ReceiveProofError::LaneMismatch);
    }
    let ghost read0 = read;
    let proved = match verify_messages_proof(proof, headers, read, messages_count, max_unconfirmed_messages, max_total_size) {
        Ok(p) => p,
        Err(e) => {
            return Err(ReceiveProofError::Verification(e));
        },
    };
    let ghost msgs = proved.messages@;
    let ghost start = *lane;
    let rr = if proved.messages.len() == 0 {
        Ok(lane.state.last_delivered_nonce)
    } else {
        lane.receive_messages(relayer, &proved.messages, max_unrewarded_relayers, max_unconfirmed_messages)
    };
    let ghost mid = *lane;
    proof {
        assert(msgs.len() > 0 ==> receive_outcome(start, mid, relayer, msgs, max_unrewarded_relayers, max_unconfirmed_messages, rr));
    }
    match rr {
        Err(e) => {
            let r = Err(ReceiveProofError::Receive(e));
            assert(receive_proof_steps(start, *lane, relayer, *proof, read0, max_unrewarded_relayers, max_unconfirmed_messages, r, msgs, mid, rr));
            return r;
        },
        Ok(_) => {},
    }
    match proved.lane_state {
        Some(s) => {
            assert(proved_received_nonce(read0) == Some(s.latest_received_nonce));
            let u = lane.receive_state_update(s.latest_received_nonce);
            let r = Ok(lane.state.last_delivered_nonce);
            proof {
                assert(state_update_outcome(mid, *lane, s.latest_received_nonce, u));
                assert(receive_proof_steps(start, *lane, relayer, *proof, read0, max_unrewarded_relayers, max_unconfirmed_messages, r, msgs, mid, rr));
            }
            r
        },
        None => {
            let r = Ok(lane.state.last_delivered_nonce);
            assert(receive_proof_steps(start, *lane, relayer, *proof, read0, max_unrewarded_relayers, max_unconfirmed_messages, r, msgs, mid, rr));
            r
        },
    }
}

/// Receives a delivery proof at the source: the proof is checked, must be
/// about this lane, and its inbound state then confirms deliveries as
/// `confirm_delivery` does.
pub fn receive_messages_delivery_proof(
    lane: &mut OutboundLane,
    proof: &MessagesDeliveryProof,
    headers: &HeaderChain,
    read: Option<DeliveryStorage>,
) -> (r: Result<Option<DeliveryConfirmation>, ConfirmProofError>)
    requires
        old(lane).wf(),
    ensures
        final(lane).wf(),
        match delivery_proof_error(headers.root_of(proof.header), read) {
            Some(e) => r == Err::<Option<DeliveryConfirmation>, ConfirmProofError>(
                ConfirmProofError::Verification(e),
            ) && *final(lane) == *old(lane),
            None => read_inbound_value(read) matches Some(v) && exists|s: InboundLaneState|
                #[trigger] decoded_inbound_fields(v@, s) && if !s.wf() {
                    r == Err::<Option<DeliveryConfirmation>, ConfirmProofError>(
                        ConfirmProofError::Verification(VerificationError::InvalidLaneState),
                    ) && *final(lane) == *old(lane)
                } else if proof.lane != old(lane).lane {
                    r == Err::<Option<DeliveryConfirmation>, ConfirmProofError>(
                        ConfirmProofError::LaneMismatch,
                    ) && *final(lane) == *old(lane)
                } else {
                    exists|rc: Result<Option<DeliveryConfirmation>, ConfirmError>|
                        #[trigger] confirm_outcome(*old(lane), *final(lane), s, rc) && match rc {
                            Ok(c) => r == Ok::<Option<DeliveryConfirmation>, ConfirmProofError>(c),
                            Err(e) => r == Err::<Option<DeliveryConfirmation>, ConfirmProofError>(
                                ConfirmProofError::Confirm(e),
                            ),
                        }
                },
        },
{
    let (proved_lane, state) = match verify_messages_delivery_proof(proof, headers, read) {
        Ok(p) => p,
        Err(e) => {
            return Err(ConfirmProofError::Verification(e));
        },
    };
    if !ids_equal(&proved_lane, &lane.lane) {
        return Err(ConfirmProofError::LaneMismatch);
    }
    let rc = lane.confirm_delivery(&state);
    match rc {
        Ok(c) => Ok(c),
        Err(e) => Err(ConfirmProofError::Confirm(e)),
    }
}

} // verus!
