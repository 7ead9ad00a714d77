//! The two bridged chains, their constants, the parameters that each keeps
//! for the bridge, and the integrity check that a bridge configuration must
//! pass before anything runs.

use crate::fee::FixedRate;
use crate::policy::{
    ChainDescriptor, maximal_incoming_message_size_spec,
    maximal_incoming_message_size,
};
use crate::lane::MessageNonce;
use vstd::prelude::*;

verus! {

/// Identifier of a chain.
pub type ChainId = [u8; 4];

/// Share of a delivery's fee that goes to the relayer, in percent.
pub const RELAYER_FEE_PERCENT: u32 = 10;

/// The constants of the peer chain.
pub open spec fn peer_chain_spec() -> ChainDescriptor {
    ChainDescriptor {
        max_extrinsic_size: 1_572_864,
        max_extrinsic_weight: 1_499_875_000_000,
        maximal_encoded_account_id_size: 32,
        extra_storage_proof_size: 1024,
        tx_extra_bytes: 103,
        base_extrinsic_weight: 125_000_000,
        default_message_delivery_tx_weight: 1_500_000_000,
        additional_message_byte_delivery_weight: 25_000,
        max_single_message_delivery_confirmation_tx_weight: 2_000_000_000,
        pay_inbound_dispatch_fee_weight: 600_000_000,
        max_unrewarded_relayers_in_confirmation_tx: 1024,
        max_unconfirmed_messages_in_confirmation_tx: 1024,
    }
}

/// The constants of the substrate chain.
pub open spec fn substrate_chain_spec() -> ChainDescriptor {
    ChainDescriptor {
        max_extrinsic_size: 3_932_160,
        max_extrinsic_weight: 1_499_875_000_000,
        maximal_encoded_account_id_size: 32,
        extra_storage_proof_size: 1024,
        tx_extra_bytes: 104,
        base_extrinsic_weight: 125_000_000,
        default_message_delivery_tx_weight: 1_500_000_000,
        additional_message_byte_delivery_weight: 25_000,
        max_single_message_delivery_confirmation_tx_weight: 2_000_000_000,
        pay_inbound_dispatch_fee_weight: 600_000_000,
        max_unrewarded_relayers_in_confirmation_tx: 128,
        max_unconfirmed_messages_in_confirmation_tx: 128,
    }
}

/// The constants of the peer chain.
pub fn peer_chain() -> (r: ChainDescriptor)
    ensures
        r == peer_chain_spec(),
{
    ChainDescriptor {
        max_extrinsic_size: 1_572_864,
        max_extrinsic_weight: 1_499_875_000_000,
        maximal_encoded_account_id_size: 32,
        extra_storage_proof_size: 1024,
        tx_extra_bytes: 103,
        base_extrinsic_weight: 125_000_000,
        default_message_delivery_tx_weight: 1_500_000_000,
        additional_message_byte_delivery_weight: 25_000,
        max_single_message_delivery_confirmation_tx_weight: 2_000_000_000,
        pay_inbound_dispatch_fee_weight: 600_000_000,
        max_unrewarded_relayers_in_confirmation_tx: 1024,
        max_unconfirmed_messages_in_confirmation_tx: 1024,
    }
}

/// The constants of the substrate chain.
pub fn substrate_chain() -> (r: ChainDescriptor)
    ensures
        r == substrate_chain_spec(),
{
    ChainDescriptor {
        max_extrinsic_size: 3_932_160,
        max_extrinsic_weight: 1_499_875_000_000,
        maximal_encoded_account_id_size: 32,
        extra_storage_proof_size: 1024,
        tx_extra_bytes: 104,
        base_extrinsic_weight: 125_000_000,
        default_message_delivery_tx_weight: 1_500_000_000,
        additional_message_byte_delivery_weight: 25_000,
        max_single_message_delivery_confirmation_tx_weight: 2_000_000_000,
        pay_inbound_dispatch_fee_weight: 600_000_000,
        max_unrewarded_relayers_in_confirmation_tx: 128,
        max_unconfirmed_messages_in_confirmation_tx: 128,
    }
}

/// Identifier of the peer chain.
pub fn peer_chain_id() -> (r: ChainId)
    ensures
        r == [0x70u8, 0x65u8, 0x65u8, 0x72u8],
{
    [0x70, 0x65, 0x65, 0x72]
}

/// Identifier of the substrate chain.
pub fn substrate_chain_id() -> (r: ChainId)
    ensures
        r == [0x73u8, 0x75u8, 0x62u8, 0x73u8],
{
    [0x73, 0x75, 0x62, 0x73]
}

/// The bridge parameters that a chain keeps and that privileged calls update.
#[derive(Clone, Copy, Debug, PartialEq, Eq, Structural)]
pub struct ParameterStore {
    /// Balance of this chain per unit of the bridged chain's balance.
    pub conversion_rate: FixedRate,
    /// The bridged chain's fee multiplier, as this chain last learned it.
    pub fee_multiplier: FixedRate,
}

impl ParameterStore {
    /// Both tokens are worth the same, and the multiplier is one.
    pub fn new() -> (r: ParameterStore)
        ensures
            r.conversion_rate.inner == crate::fee::FIXED_DIV,
            r.fee_multiplier.inner == crate::fee::FIXED_DIV,
    {
        ParameterStore { conversion_rate: FixedRate::one(), fee_multiplier: FixedRate::one() }
    }
}

/// Bounds that the messages module of one lane end enforces.
#[derive(Clone, Copy, Debug, PartialEq, Eq, Structural)]
pub struct LaneConfig {
    /// Most unsettled relayer entries at an inbound lane.
    pub max_unrewarded_relayers_at_inbound_lane: MessageNonce,
    /// Most delivered and unconfirmed messages at an inbound lane.
    pub max_unconfirmed_messages_at_inbound_lane: MessageNonce,
}

/// The inbound lane bounds of the peer chain, which the substrate chain's
/// confirmations must be able to carry.
pub fn peer_lane_config() -> (r: LaneConfig)
    ensures
        r.max_unrewarded_relayers_at_inbound_lane == 128,
        r.max_unconfirmed_messages_at_inbound_lane == 128,
{
    LaneConfig { max_unrewarded_relayers_at_inbound_lane: 128, max_unconfirmed_messages_at_inbound_lane: 128 }
}

/// The inbound lane bounds of the substrate chain, which the peer chain's
/// confirmations must be able to carry.
pub fn substrate_lane_config() -> (r: LaneConfig)
    ensures
        r.max_unrewarded_relayers_at_inbound_lane == 1024,
        r.max_unconfirmed_messages_at_inbound_lane == 1024,
{
    LaneConfig { max_unrewarded_relayers_at_inbound_lane: 1024, max_unconfirmed_messages_at_inbound_lane: 1024 }
}

/// Why a bridge configuration is refused.
#[derive(Clone, Copy, Debug, PartialEq, Eq, Structural)]
pub enum IntegrityError {
    /// Both ends claim the same chain identifier.
    SameChainIds,
    /// The inbound lane may hold more relayer entries than one confirmation carries.
    TooManyUnrewardedRelayers,
    /// The inbound lane may hold more unconfirmed messages than one confirmation carries.
    TooManyUnconfirmedMessages,
    /// A delivery of the largest message does not fit one extrinsic of the target.
    MessageDoesNotFit,
}

/// The first integrity rule that a bridge from `this_chain` to `bridged`
/// breaks, if any.
pub open spec fn integrity_error_spec(
    this_id: ChainId,
    bridged_id: ChainId,
    this_chain: ChainDescriptor,
    bridged: ChainDescriptor,
    lane: LaneConfig,
) -> Option<IntegrityError> {
    let max_message = maximal_incoming_message_size_spec(bridged.max_extrinsic_size as int);
    if this_id == bridged_id {
        Some(IntegrityError::SameChainIds)
    } else if lane.max_unrewarded_relayers_at_inbound_lane
        > bridged.max_unrewarded_relayers_in_confirmation_tx {
        Some(IntegrityError::TooManyUnrewardedRelayers)
    } else if lane.max_unconfirmed_messages_at_inbound_lane
        > bridged.max_unconfirmed_messages_in_confirmation_tx {
        Some(IntegrityError::TooManyUnconfirmedMessages)
    } else if max_message + this_chain.extra_storage_proof_size + bridged.tx_extra_bytes
        > bridged.max_extrinsic_size {
        Some(IntegrityError::MessageDoesNotFit)
    } else {
        None
    }
}

/// Checks, before the bridge runs, that the constants of both chains and of
/// the lane agree: distinct chain identifiers, inbound lane bounds that a
/// single confirmation can carry, and room in one target extrinsic for the
/// largest message with its storage proof.
pub fn check_bridge_integrity(
    this_id: &ChainId,
    bridged_id: &ChainId,
    this_chain: &ChainDescriptor,
    bridged: &ChainDescriptor,
    lane: &LaneConfig,
) -> (r: Result<(), IntegrityError>)
    ensures
        match integrity_error_spec(*this_id, *bridged_id, *this_chain, *bridged, *lane) {
            Some(e) => r == Err::<(), IntegrityError>(e),
            None => r is Ok,
        },
{
    if crate::lane::ids_equal(this_id, bridged_id) {
        return Err(IntegrityError::SameChainIds);
    }
    if lane.max_unrewarded_relayers_at_inbound_lane > bridged.max_unrewarded_relayers_in_confirmation_tx {
        return Err(IntegrityError::TooManyUnrewardedRelayers);
    }
    if lane.max_unconfirmed_messages_at_inbound_lane > bridged.max_unconfirmed_messages_in_confirmation_tx {
        return Err(IntegrityError::TooManyUnconfirmedMessages);
    }
    let max_message = maximal_incoming_message_size(bridged.max_extrinsic_size) as u64;
    if max_message + this_chain.extra_storage_proof_size as u64 + bridged.tx_extra_bytes as u64
        > bridged.max_extrinsic_size as u64 {
        return Err(IntegrityError::MessageDoesNotFit);
    }
    Ok(())
}

} // verus!
