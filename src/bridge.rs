//! The bridges that the relayer serves, each bound once to its chains, lane
//! bounds and relay settings, and the settings of the header relay.

use crate::chains::{
    check_bridge_integrity, integrity_error_spec, peer_chain, peer_chain_id, peer_chain_spec,
    peer_lane_config, substrate_chain, substrate_chain_id, substrate_chain_spec,
    substrate_lane_config, ChainId, IntegrityError, LaneConfig,
};
use crate::fee::Weight;
use crate::finality::{FinalitySync, FinalitySyncState};
use crate::policy::{maximal_incoming_message_dispatch_weight, ChainDescriptor};
use crate::relay::{DeliveryLimits, RelayStrategy};
use vstd::prelude::*;

verus! {

/// Instance index of the bridge pallet in the peer runtime.
pub const PEER_TO_SUBSTRATE_INDEX: u8 = 0;

/// Instance index of the bridge pallet in the substrate runtime.
pub const SUBSTRATE_TO_PEER_INDEX: u8 = 0;

/// Supported full bridges: headers and messages.
#[derive(Clone, Copy, Debug, PartialEq, Eq, Structural)]
pub enum FullBridge {
    PeerToSubstrate,
    SubstrateToPeer,
}

/// Everything that one directed bridge is bound to.
#[derive(Clone, Copy, Debug, PartialEq, Eq)]
pub struct BridgeConfig {
    pub source_id: ChainId,
    pub target_id: ChainId,
    pub source: ChainDescriptor,
    pub target: ChainDescriptor,
    /// Inbound lane bounds at the target.
    pub target_lane: LaneConfig,
    pub relay_strategy: RelayStrategy,
    pub delivery_limits: DeliveryLimits,
}

impl FullBridge {
    /// Instance index of the bridge pallet in the source runtime.
    pub fn bridge_instance_index(&self) -> (r: u8)
        ensures
            r == match *self {
                FullBridge::PeerToSubstrate => PEER_TO_SUBSTRATE_INDEX,
                FullBridge::SubstrateToPeer => SUBSTRATE_TO_PEER_INDEX,
            },
    {
        match self {
            FullBridge::PeerToSubstrate => PEER_TO_SUBSTRATE_INDEX,
            FullBridge::SubstrateToPeer => SUBSTRATE_TO_PEER_INDEX,
        }
    }

    /// The chains, lane bounds and relay settings of this bridge.
    pub fn config(&self) -> (r: BridgeConfig)
        ensures
            *self == FullBridge::PeerToSubstrate ==> r.source == peer_chain_spec() && r.target
                == substrate_chain_spec() && r.source_id == [0x70u8, 0x65u8, 0x65u8, 0x72u8] && r.target_id == [0x73u8, 0x75u8, 0x62u8, 0x73u8]
                && r.target_lane == (LaneConfig { max_unrewarded_relayers_at_inbound_lane: 1024, max_unconfirmed_messages_at_inbound_lane: 1024 }),
            *self == FullBridge::SubstrateToPeer ==> r.source == substrate_chain_spec() && r.target
                == peer_chain_spec() && r.source_id == [0x73u8, 0x75u8, 0x62u8, 0x73u8] && r.target_id == [0x70u8, 0x65u8, 0x65u8, 0x72u8]
                && r.target_lane == (LaneConfig { max_unrewarded_relayers_at_inbound_lane: 128, max_unconfirmed_messages_at_inbound_lane: 128 }),
            r.relay_strategy == RelayStrategy::Altruistic,
            r.delivery_limits.max_messages_per_proof
                == r.target_lane.max_unconfirmed_messages_at_inbound_lane,
            r.delivery_limits.max_weight_per_proof == r.target.max_extrinsic_weight / 2,
    {
        match self {
            FullBridge::PeerToSubstrate => PeerMessagesToSubstrate::config(),
            FullBridge::SubstrateToPeer => SubstrateMessagesToPeer::config(),
        }
    }
}

fn bridge_config(
    source_id: ChainId,
    target_id: ChainId,
    source: ChainDescriptor,
    target: ChainDescriptor,
    target_lane: LaneConfig,
) -> (r: BridgeConfig)
    ensures
        r.source_id == source_id,
        r.target_id == target_id,
        r.source == source,
        r.target == target,
        r.target_lane == target_lane,
        r.relay_strategy == RelayStrategy::Altruistic,
        r.delivery_limits.max_messages_per_proof == target_lane.max_unconfirmed_messages_at_inbound_lane,
        r.delivery_limits.max_weight_per_proof == target.max_extrinsic_weight / 2,
{
    let max_weight: Weight = maximal_incoming_message_dispatch_weight(target.max_extrinsic_weight);
    BridgeConfig {
        source_id,
        target_id,
        source,
        target,
        target_lane,
        relay_strategy: RelayStrategy::Altruistic,
        delivery_limits: DeliveryLimits {
            max_messages_per_proof: target_lane.max_unconfirmed_messages_at_inbound_lane,
            max_weight_per_proof: max_weight,
        },
    }
}

/// Messages relay from the peer chain to the substrate chain.
#[derive(Clone, Copy, Debug, PartialEq, Eq, Structural)]
pub struct PeerMessagesToSubstrate;

impl PeerMessagesToSubstrate {
    /// The settings of this relay: every undelivered message is relayed, in
    /// proofs that the substrate chain's inbound lane can take.
    pub fn config() -> (r: BridgeConfig)
        ensures
            r.source == peer_chain_spec(),
            r.target == substrate_chain_spec(),
            r.source_id == [0x70u8, 0x65u8, 0x65u8, 0x72u8],
            r.target_id == [0x73u8, 0x75u8, 0x62u8, 0x73u8],
            r.target_lane == (LaneConfig { max_unrewarded_relayers_at_inbound_lane: 1024, max_unconfirmed_messages_at_inbound_lane: 1024 }),
            r.relay_strategy == RelayStrategy::Altruistic,
            r.delivery_limits.max_messages_per_proof == 1024,
            r.delivery_limits.max_weight_per_proof == r.target.max_extrinsic_weight / 2,
    {
        bridge_config(peer_chain_id(), substrate_chain_id(), peer_chain(), substrate_chain(), substrate_lane_config())
    }
}

/// Messages relay from the substrate chain to the peer chain.
#[derive(Clone, Copy, Debug, PartialEq, Eq, Structural)]
pub struct SubstrateMessagesToPeer;

impl SubstrateMessagesToPeer {
    /// The settings of this relay: every undelivered message is relayed, in
    /// proofs that the peer chain's inbound lane can take.
    pub fn config() -> (r: BridgeConfig)
        ensures
            r.source == substrate_chain_spec(),
            r.target == peer_chain_spec(),
            r.source_id == [0x73u8, 0x75u8, 0x62u8, 0x73u8],
            r.target_id == [0x70u8, 0x65u8, 0x65u8, 0x72u8],
            r.target_lane == (LaneConfig { max_unrewarded_relayers_at_inbound_lane: 128, max_unconfirmed_messages_at_inbound_lane: 128 }),
            r.relay_strategy == RelayStrategy::Altruistic,
            r.delivery_limits.max_messages_per_proof == 128,
            r.delivery_limits.max_weight_per_proof == r.target.max_extrinsic_weight / 2,
    {
        bridge_config(substrate_chain_id(), peer_chain_id(), substrate_chain(), peer_chain(), peer_lane_config())
    }
}

/// Checks the constants of a bridge's target end against its source chain.
pub fn check_config_integrity(config: &BridgeConfig) -> (r: Result<(), IntegrityError>)
    ensures
        match integrity_error_spec(config.target_id, config.source_id, config.target, config.source, config.target_lane) {
            Some(e) => r == Err::<(), IntegrityError>(e),
            None => r is Ok,
        },
{
    check_bridge_integrity(&config.target_id, &config.source_id, &config.target, &config.source, &config.target_lane)
}

/// Finality relay of peer chain headers to the substrate chain.
#[derive(Clone, Copy, Debug, PartialEq, Eq, Structural)]
pub struct PeerFinalityToSubstrate;

impl PeerFinalityToSubstrate {
    /// The chain whose headers are relayed.
    pub fn source_chain() -> (r: ChainDescriptor)
        ensures
            r == peer_chain_spec(),
    {
        peer_chain()
    }

    /// The chain that learns of them.
    pub fn target_chain() -> (r: ChainDescriptor)
        ensures
            r == substrate_chain_spec(),
    {
        substrate_chain()
    }
}

/// Header relays that the relayer serves.
#[derive(Clone, Copy, Debug, PartialEq, Eq, Structural)]
pub enum RelayHeadersBridge {
    PeerToSubstrate,
    SubstrateToPeer,
}

/// Settings of a header relay.
#[derive(Clone, Copy, Debug, PartialEq, Eq, Structural)]
pub struct RelayHeaders {
    /// The bridge whose headers are relayed.
    pub bridge: RelayHeadersBridge,
    /// Relay only the headers that change the finality authority set.
    pub only_mandatory_headers: bool,
}

impl RelayHeaders {
    /// The finality sync pipeline that these settings call for, with nothing
    /// in flight.
    pub fn finality_pipeline(&self) -> (r: FinalitySync)
        ensures
            r.state == FinalitySyncState::Idle,
            r.only_mandatory_headers == self.only_mandatory_headers,
    {
        FinalitySync::new(self.only_mandatory_headers)
    }

    /// The (source, target) chains of the relay.
    pub fn chains(&self) -> (r: (ChainDescriptor, ChainDescriptor))
        ensures
            self.bridge == RelayHeadersBridge::PeerToSubstrate ==> r == (peer_chain_spec(), substrate_chain_spec()),
            self.bridge == RelayHeadersBridge::SubstrateToPeer ==> r == (substrate_chain_spec(), peer_chain_spec()),
    {
        match self.bridge {
            RelayHeadersBridge::PeerToSubstrate => (peer_chain(), substrate_chain()),
            RelayHeadersBridge::SubstrateToPeer => (substrate_chain(), peer_chain()),
        }
    }
}

/// The substrate chain as the relayer's client sees it.
#[derive(Clone, Copy, Debug, PartialEq, Eq, Structural)]
pub struct Substrate2;

impl Substrate2 {
    /// Largest extrinsic, in bytes.
    pub fn max_extrinsic_size() -> (r: u32)
        ensures
            r == substrate_chain_spec().max_extrinsic_size,
    {
        substrate_chain().max_extrinsic_size
    }

    /// Largest weight of one extrinsic.
    pub fn max_extrinsic_weight() -> (r: Weight)
        ensures
            r == substrate_chain_spec().max_extrinsic_weight,
    {
        substrate_chain().max_extrinsic_weight
    }

    /// Bytes that a storage proof adds beyond the proved values.
    pub fn storage_proof_overhead() -> (r: u32)
        ensures
            r == substrate_chain_spec().extra_storage_proof_size,
    {
        substrate_chain().extra_storage_proof_size
    }

    /// Largest encoded size of an account identifier.
    pub fn maximal_encoded_account_id_size() -> (r: u32)
        ensures
            r == substrate_chain_spec().maximal_encoded_account_id_size,
    {
        substrate_chain().maximal_encoded_account_id_size
    }

    /// Average time between blocks, in seconds.
    pub fn average_block_interval_secs() -> (r: u64)
        ensures
            r == 5,
    {
        5
    }
}

} // verus!
