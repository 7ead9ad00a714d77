//! The decisions of the message relay engine for one lane: which undelivered
//! messages to deliver next and when to confirm deliveries. The engine reads
//! both chains, calls these functions, and builds and submits the proofs.

use crate::lane::MessageNonce;
use crate::fee::Weight;
use vstd::prelude::*;

verus! {

/// How the engine picks messages to deliver.
#[derive(Clone, Copy, Debug, PartialEq, Eq, Structural)]
pub enum RelayStrategy {
    /// Deliver every undelivered message.
    Altruistic,
    /// Deliver only while no competing relayer's delivery is in flight.
    RaceAware,
}

/// What the engine read from both chains about one lane.
#[derive(Clone, Copy, Debug, PartialEq, Eq, Structural)]
pub struct LaneScan {
    /// The source's latest generated nonce at its best header.
    pub source_latest_generated: MessageNonce,
    /// The source's latest generated nonce at the newest source header that
    /// the target knows as finalized: proofs can only be anchored there.
    pub source_generated_at_target_known: MessageNonce,
    /// The source's latest received nonce at its best header.
    pub source_latest_received: MessageNonce,
    /// The target's last delivered nonce at its best header.
    pub target_last_delivered: MessageNonce,
    /// The target's last delivered nonce at the newest target header that the
    /// source knows as finalized.
    pub target_delivered_at_source_known: MessageNonce,
    /// Whether another relayer's delivery on this lane is in flight.
    pub competing_delivery_in_flight: bool,
}

/// Bounds on one messages proof.
#[derive(Clone, Copy, Debug, PartialEq, Eq, Structural)]
pub struct DeliveryLimits {
    pub max_messages_per_proof: MessageNonce,
    pub max_weight_per_proof: Weight,
}

/// What the engine does about delivery.
#[derive(Clone, Copy, Debug, PartialEq, Eq, Structural)]
pub enum DeliveryDecision {
    /// Nothing to deliver now.
    Nothing,
    /// Messages wait for the target to learn a newer finalized source header.
    WaitForFinality,
    /// Prove and deliver the messages `begin..=end`.
    Deliver { begin: MessageNonce, end: MessageNonce },
}

/// What the engine does about confirmation.
#[derive(Clone, Copy, Debug, PartialEq, Eq, Structural)]
pub enum ConfirmationDecision {
    Nothing,
    /// Deliveries wait for the source to learn a newer finalized target header.
    WaitForFinality,
    /// Prove the target's inbound lane state and submit it to the source.
    Confirm,
}

/// The sum of the first `k` weights.
pub open spec fn weight_prefix(weights: Seq<Weight>, k: int) -> int
    decreases k,
{
    if k <= 0 {
        0
    } else {
        weight_prefix(weights, k - 1) + weights[k - 1]
    }
}

/// The first nonce not yet delivered and not in a delivery of this engine
/// that is still in flight.
pub open spec fn first_undelivered(scan: LaneScan, in_flight_end: Option<MessageNonce>) -> int {
    let after = match in_flight_end {
        Some(e) if e > scan.target_last_delivered => e as int,
        _ => scan.target_last_delivered as int,
    };
    after + 1
}

/// The largest batch that the limits allow: at most `available` messages, at
/// most one per known weight, at most the proof's message bound, and within
/// its weight bound, except that the first message always goes, however
/// heavy, since it cannot be split.
pub open spec fn batch_fits(weights: Seq<Weight>, available: int, limits: DeliveryLimits, k: int) -> bool {
    &&& 1 <= k
    &&& k <= available
    &&& k <= weights.len()
    &&& k <= limits.max_messages_per_proof
    &&& (k == 1 || weight_prefix(weights, k) <= limits.max_weight_per_proof)
}

/// Decides what to deliver next. `weights` are the dispatch weights of the
/// messages from the first undelivered nonce on, as far as the engine read
/// them; `in_flight_end` is the last nonce of this engine's delivery that is
/// still in flight. The batch starts at the first undelivered nonce, ends at
/// or before the source's latest nonce that the target can verify, and is the
/// largest that fits the proof limits.
pub fn decide_delivery(
    scan: &LaneScan,
    in_flight_end: Option<MessageNonce>,
    weights: &Vec<Weight>,
    limits: &DeliveryLimits,
    strategy: RelayStrategy,
) -> (r: DeliveryDecision)
    ensures
        first_undelivered(*scan, in_flight_end) > scan.source_latest_generated ==> r
            == DeliveryDecision::Nothing,
        first_undelivered(*scan, in_flight_end) <= scan.source_latest_generated
            && first_undelivered(*scan, in_flight_end) > scan.source_generated_at_target_known
            ==> r == DeliveryDecision::WaitForFinality,
        first_undelivered(*scan, in_flight_end) <= scan.source_latest_generated
            && first_undelivered(*scan, in_flight_end) <= scan.source_generated_at_target_known
            ==> {
            let available = scan.source_generated_at_target_known - first_undelivered(*scan, in_flight_end) + 1;
            if strategy == RelayStrategy::RaceAware && scan.competing_delivery_in_flight {
                r == DeliveryDecision::Nothing
            } else if !batch_fits(weights@, available, *limits, 1) {
                r == DeliveryDecision::Nothing
            } else {
                r matches DeliveryDecision::Deliver { begin, end } && begin == first_undelivered(*scan, in_flight_end)
                    && batch_fits(weights@, available, *limits, end - begin + 1)
                    && !batch_fits(weights@, available, *limits, end - begin + 2)
            }
        },
{
    let after = match in_flight_end {
        Some(e) => if e > scan.target_last_delivered {
            e
        } else {
            scan.target_last_delivered
        },
        None => scan.target_last_delivered,
    };
    if after >= scan.source_latest_generated {
        return DeliveryDecision::Nothing;
    }
    let begin = after + 1;
    if begin > scan.source_generated_at_target_known {
        return DeliveryDecision::WaitForFinality;
    }
    if strategy == RelayStrategy::RaceAware && scan.competing_delivery_in_flight {
        return DeliveryDecision::Nothing;
    }
    let available = scan.source_generated_at_target_known - begin + 1;
    if available < 1 || weights.len() < 1 || limits.max_messages_per_proof < 1 {
        return DeliveryDecision::Nothing;
    }
    // grow the batch while the next message still fits
    let mut count: u64 = 1;
    let mut total: u128 = weights[0] as u128;
    proof {
        assert(weight_prefix(weights@, 1) == weights@[0]) by {
            assert(weight_prefix(weights@, 0) == 0);
        }
    }
    while count < available && (count as usize) < weights.len() && count < limits.max_messages_per_proof
        && total + weights[count as usize] as u128 <= limits.max_weight_per_proof as u128
        invariant
            1 <= count <= available,
            count <= weights@.len(),
            count <= limits.max_messages_per_proof,
            total == weight_prefix(weights@, count as int),
            total <= u64::MAX * count,
            batch_fits(weights@, available as int, *limits, count as int),
            available == scan.source_generated_at_target_known - begin + 1,
        decreases available - count,
    {
        total = total + weights[count as usize] as u128;
        count = count + 1;
    }
    proof {
        let k = count as int;
        if k < available && k < weights@.len() && k < limits.max_messages_per_proof {
            assert(weight_prefix(weights@, k + 1) == total + weights@[k]);
        }
    }
    DeliveryDecision::Deliver { begin, end: begin + (count - 1) }
}

/// Decides whether to confirm deliveries: only where the target delivered
/// beyond the source's latest received nonce and no confirmation of this
/// engine is in flight; and only once the source knows a finalized target
/// header that shows the new deliveries.
pub fn decide_confirmation(scan: &LaneScan, confirmation_in_flight: bool) -> (r: ConfirmationDecision)
    ensures
        r == (if scan.target_last_delivered <= scan.source_latest_received || confirmation_in_flight {
            ConfirmationDecision::Nothing
        } else if scan.target_delivered_at_source_known <= scan.source_latest_received {
            ConfirmationDecision::WaitForFinality
        } else {
            ConfirmationDecision::Confirm
        }),
{
    if scan.target_last_delivered <= scan.source_latest_received || confirmation_in_flight {
        ConfirmationDecision::Nothing
    } else if scan.target_delivered_at_source_known <= scan.source_latest_received {
        ConfirmationDecision::WaitForFinality
    } else {
        ConfirmationDecision::Confirm
    }
}

} // verus!
