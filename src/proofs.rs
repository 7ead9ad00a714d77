//! Checks of proofs about the bridged chain: messages proofs (source to
//! target) and delivery proofs (target back to source). Both are anchored to
//! a header that this chain knows to be finalized; the storage-trie proof
//! itself is checked against that header's state root by the storage-proof
//! primitive, whose read-out these checks take as an argument.

use crate::lane::{InboundLaneState, LaneId, Message, MessageNonce, OutboundLaneState};
use crate::wire::{inbound_bytes, lemma_inbound_round_trip, lemma_message_round_trip, lemma_outbound_round_trip, message_bytes, outbound_bytes, inbound_well_sized, u128_at, u32_at, u64_at, entry_at, INBOUND_HEADER_SIZE, RELAYER_ENTRY_SIZE, decode_message};
use vstd::prelude::*;

verus! {

/// A 32-byte hash.
pub type BlockHash = [u8; 32];

/// A header of the bridged chain: its number and hash.
#[derive(Clone, Copy, Debug, PartialEq, Eq)]
pub struct HeaderId {
    pub number: u64,
    pub hash: BlockHash,
}

/// A finalized header that this chain imported, with the state root it commits to.
#[derive(Clone, Copy, Debug, PartialEq, Eq)]
pub struct ImportedHeader {
    pub id: HeaderId,
    pub state_root: BlockHash,
}

/// The finalized headers of the bridged chain that this chain knows, oldest first.
#[derive(Clone, Debug, PartialEq, Eq)]
pub struct HeaderChain {
    pub headers: Vec<ImportedHeader>,
}

/// Why a header was not imported.
#[derive(Clone, Copy, Debug, PartialEq, Eq, Structural)]
pub enum ImportError {
    /// The header is not newer than the best finalized one.
    OldHeader,
}

/// Why a proof was refused.
#[derive(Clone, Copy, Debug, PartialEq, Eq, Structural)]
pub enum VerificationError {
    /// The proof is anchored to a header that this chain does not know as finalized.
    UnknownHeader,
    /// The storage proof does not match the header's state root.
    InvalidStorageProof,
    /// The proved range holds another number of messages than declared.
    MessagesCountMismatch,
    /// The proved range holds more messages than one proof may carry.
    TooManyMessages,
    /// The proof carries neither messages nor the outbound lane state.
    Empty,
    /// A message of the proved range is not in storage.
    MissingMessage,
    /// A stored message could not be decoded.
    FailedToDecodeMessage,
    /// The proved payloads together exceed what one proof may carry.
    TooLarge,
    /// The proof carries no lane state.
    MissingLaneState,
    /// A stored lane state could not be decoded.
    FailedToDecodeLaneState,
    /// A decoded inbound lane state breaks the lane invariant.
    InvalidLaneState,
}

/// A proof of messages `nonces_start..=nonces_end` of a lane at the source.
#[derive(Clone, Debug, PartialEq, Eq)]
pub struct MessagesProof {
    pub header: HeaderId,
    pub lane: LaneId,
    pub nonces_start: MessageNonce,
    pub nonces_end: MessageNonce,
    /// The trie nodes, for the storage-proof primitive.
    pub storage_proof: Vec<Vec<u8>>,
}

/// A proof of the inbound lane state of a lane at the target.
#[derive(Clone, Debug, PartialEq, Eq)]
pub struct MessagesDeliveryProof {
    pub header: HeaderId,
    pub lane: LaneId,
    /// The trie nodes, for the storage-proof primitive.
    pub storage_proof: Vec<Vec<u8>>,
}

/// What the storage-proof primitive read out of a messages proof: the state
/// root that it checked the proof against, the value stored for each nonce of
/// the range, in order, and the stored outbound lane state, where there is one.
#[derive(Clone, Debug, PartialEq, Eq)]
pub struct MessagesStorage {
    pub state_root: BlockHash,
    pub messages: Vec<Option<Vec<u8>>>,
    pub outbound_lane_state: Option<Vec<u8>>,
}

/// What the storage-proof primitive read out of a delivery proof: the state
/// root that it checked the proof against, and the stored inbound lane state,
/// where there is one.
#[derive(Clone, Debug, PartialEq, Eq)]
pub struct DeliveryStorage {
    pub state_root: BlockHash,
    pub inbound_lane_state: Option<Vec<u8>>,
}

/// The messages, and the lane state, that a messages proof showed.
#[derive(Clone, Debug, PartialEq, Eq)]
pub struct ProvedMessages {
    pub lane: LaneId,
    pub lane_state: Option<OutboundLaneState>,
    pub messages: Vec<Message>,
}

/// Whether two hashes are the same.
pub fn hashes_equal(a: &BlockHash, b: &BlockHash) -> (r: bool)
    ensures
        r == (*a == *b),
{
    broadcast use vstd::array::group_array_axioms;

    let mut k: usize = 0;
    while k < 32
        invariant
            0 <= k <= 32,
            forall|j: int| 0 <= j < k ==> a[j] == b[j],
        decreases 32 - k,
    {
        if a[k] != b[k] {
            return false;
        }
        k = k + 1;
    }
    assert(*a =~= *b);
    true
}

/// Whether two header ids are the same.
pub fn header_ids_equal(a: &HeaderId, b: &HeaderId) -> (r: bool)
    ensures
        r == (*a == *b),
{
    a.number == b.number && hashes_equal(&a.hash, &b.hash)
}

/// The state root of the first record of `id` in `headers`, if any.
pub open spec fn first_root(headers: Seq<ImportedHeader>, id: HeaderId) -> Option<BlockHash>
    decreases headers.len(),
{
    if headers.len() == 0 {
        None
    } else if headers[0].id == id {
        Some(headers[0].state_root)
    } else {
        first_root(headers.drop_first(), id)
    }
}

impl HeaderChain {
    /// Header numbers increase strictly along the chain.
    pub open spec fn wf(&self) -> bool {
        forall|i: int, j: int|
            0 <= i < j < self.headers@.len() ==> (#[trigger] self.headers@[i]).id.number
                < (#[trigger] self.headers@[j]).id.number
    }

    /// The state root of `id` where `id` is a known finalized header.
    pub open spec fn root_of(&self, id: HeaderId) -> Option<BlockHash> {
        first_root(self.headers@, id)
    }

    /// A chain that knows no header.
    pub fn new() -> (r: HeaderChain)
        ensures
            r.wf(),
            r.headers@.len() == 0,
    {
        HeaderChain { headers: Vec::new() }
    }

    /// The best finalized header that this chain knows.
    pub fn best_finalized(&self) -> (r: Option<HeaderId>)
        ensures
            self.headers@.len() == 0 ==> r is None,
            self.headers@.len() > 0 ==> r == Some(self.headers@.last().id),
    {
        let n = self.headers.len();
        if n == 0 {
            None
        } else {
            Some(self.headers[n - 1].id)
        }
    }

    /// Records a header whose finality was proved. Only a header newer than
    /// the best finalized one is recorded.
    pub fn import_finalized(&mut self, header: ImportedHeader) -> (r: Result<(), ImportError>)
        requires
            old(self).wf(),
        ensures
            final(self).wf(),
            old(self).headers@.len() > 0 && header.id.number <= old(self).headers@.last().id.number
                ==> r == Err::<(), ImportError>(ImportError::OldHeader) && *final(self) == *old(self),
            !(old(self).headers@.len() > 0 && header.id.number <= old(self).headers@.last().id.number)
                ==> r is Ok && final(self).headers@ == old(self).headers@.push(header),
    {
        let n = self.headers.len();
        if n > 0 && header.id.number <= self.headers[n - 1].id.number {
            return Err(ImportError::OldHeader);
        }
        let ghost before = self.headers@;
        self.headers.push(header);
        proof {
            assert forall|i: int, j: int|
                0 <= i < j < self.headers@.len() implies (#[trigger] self.headers@[i]).id.number
                < (#[trigger] self.headers@[j]).id.number by {
                if j == before.len() && i < before.len() - 1 {
                    assert(before[i].id.number < before[before.len() - 1].id.number);
                }
            }
        }
        Ok(())
    }

    /// The state root of `id`, where `id` is a known finalized header.
    pub fn state_root(&self, id: &HeaderId) -> (r: Option<BlockHash>)
        ensures
            r == self.root_of(*id),
    {
        let ghost h = self.headers@;
        assert(h.subrange(0, h.len() as int) =~= h);
        let mut i: usize = 0;
        while i < self.headers.len()
            invariant
                h == self.headers@,
                0 <= i <= h.len(),
                first_root(h, *id) == first_root(h.subrange(i as int, h.len() as int), *id),
            decreases h.len() - i,
        {
            assert(h.subrange(i as int, h.len() as int).drop_first() =~= h.subrange(i + 1, h.len() as int));
            if header_ids_equal(&self.headers[i].id, id) {
                return Some(self.headers[i].state_root);
            }
            i = i + 1;
        }
        None
    }
}

/// The number of nonces in `start..=end`: zero where `end` is below `start`.
pub open spec fn range_len(start: int, end: int) -> int {
    if end < start {
        0
    } else {
        end - start + 1
    }
}

/// The payload bytes of the stored messages `values`: each value holds the
/// fee in its first sixteen bytes and the payload after them.
pub open spec fn payload_total(values: Seq<Option<Vec<u8>>>) -> int
    decreases values.len(),
{
    if values.len() == 0 {
        0
    } else {
        payload_total(values.drop_last()) + match values.last() {
            Some(v) => v@.len() - 16,
            None => 0,
        }
    }
}

/// The first check that a messages proof fails, if any.
pub open spec fn messages_proof_error(
    proof: MessagesProof,
    root: Option<BlockHash>,
    read: Option<MessagesStorage>,
    messages_count: u32,
    max_messages: MessageNonce,
    max_total_size: u64,
) -> Option<VerificationError> {
    let n = range_len(proof.nonces_start as int, proof.nonces_end as int);
    if n != messages_count {
        Some(VerificationError::MessagesCountMismatch)
    } else if n > max_messages {
        Some(VerificationError::TooManyMessages)
    } else if root is None {
        Some(VerificationError::UnknownHeader)
    } else {
        match read {
            None => Some(VerificationError::InvalidStorageProof),
            Some(st) => {
                if root != Some(st.state_root) || st.messages@.len() != n {
                    Some(VerificationError::InvalidStorageProof)
                } else if exists|i: int| 0 <= i < n && (#[trigger] st.messages@[i]) is None {
                    Some(VerificationError::MissingMessage)
                } else if exists|i: int|
                    0 <= i < n && ((#[trigger] st.messages@[i]) matches Some(v) && v@.len() < 16) {
                    Some(VerificationError::FailedToDecodeMessage)
                } else if payload_total(st.messages@) > max_total_size {
                    Some(VerificationError::TooLarge)
                } else if st.outbound_lane_state matches Some(v) && v@.len() != 16 {
                    Some(VerificationError::FailedToDecodeLaneState)
                } else if n == 0 && st.outbound_lane_state is None {
                    Some(VerificationError::Empty)
                } else {
                    None
                }
            },
        }
    }
}

/// What checking a messages proof returns: the error of the first failed
/// check, or else the messages of the proved range in nonce order, each
/// decoded from the stored value of its nonce, with the decoded lane state.
pub open spec fn messages_proof_outcome(
    proof: MessagesProof,
    root: Option<BlockHash>,
    read: Option<MessagesStorage>,
    messages_count: u32,
    max_messages: MessageNonce,
    max_total_size: u64,
    r: Result<ProvedMessages, VerificationError>,
) -> bool {
    &&& match messages_proof_error(proof, root, read, messages_count, max_messages, max_total_size) {
        Some(e) => r == Err::<ProvedMessages, VerificationError>(e),
        None => r is Ok,
    }
    &&& (r matches Ok(p) ==> {
        &&& read matches Some(st)
        &&& p.lane == proof.lane
        &&& p.messages@.len() == range_len(proof.nonces_start as int, proof.nonces_end as int)
        &&& forall|i: int| 0 <= i < p.messages@.len() ==> {
            &&& (#[trigger] p.messages@[i]).lane == proof.lane
            &&& p.messages@[i].nonce == proof.nonces_start + i
            &&& st.messages@[i] matches Some(v)
            &&& p.messages@[i].fee == u128_at(v@, 0)
            &&& p.messages@[i].payload@ == v@.subrange(16, v@.len() as int)
        }
        &&& match st.outbound_lane_state {
            None => p.lane_state is None,
            Some(v) => p.lane_state matches Some(s) && s.latest_generated_nonce == u64_at(v@, 0)
                && s.latest_received_nonce == u64_at(v@, 8),
        }
    })
}

/// Checks a messages proof and returns the messages it shows, in nonce order.
/// `read` is what the storage-proof primitive read from `proof.storage_proof`
/// (`None` where it refused the proof); it must have been read against the
/// state root of `proof.header`; `messages_count` is the number of messages that the relayer
/// declared, `max_messages` the most that one proof may carry and
/// `max_total_size` the most payload bytes that they may hold together.
pub fn verify_messages_proof(
    proof: &MessagesProof,
    headers: &HeaderChain,
    read: Option<MessagesStorage>,
    messages_count: u32,
    max_messages: MessageNonce,
    max_total_size: u64,
) -> (r: Result<ProvedMessages, VerificationError>)
    ensures
        messages_proof_outcome(*proof, headers.root_of(proof.header), read, messages_count, max_messages, max_total_size, r),
{
    let n: u64 = if proof.nonces_end < proof.nonces_start {
        0
    } else if proof.nonces_end - proof.nonces_start == u64::MAX {
        u64::MAX
    } else {
        proof.nonces_end - proof.nonces_start + 1
    };
    if proof.nonces_end >= proof.nonces_start && proof.nonces_end - proof.nonces_start == u64::MAX {
        // the range holds 2^64 nonces, more than any count that fits a u32
        return Err(VerificationError::MessagesCountMismatch);
    }
    if n != messages_count as u64 {
        return Err(VerificationError::MessagesCountMismatch);
    }
    if n > max_messages {
        return Err(VerificationError::TooManyMessages);
    }
    let root = match headers.state_root(&proof.header) {
        None => {
            return Err(VerificationError::UnknownHeader);
        },
        Some(root) => root,
    };
    let st = match read {
        None => {
            return Err(VerificationError::InvalidStorageProof);
        },
        Some(st) => st,
    };
    if !hashes_equal(&st.state_root, &root) || st.messages.len() as u64 != n {
        return Err(VerificationError::InvalidStorageProof);
    }
    let ghost values = st.messages@;
    let mut i: usize = 0;
    while i < st.messages.len()
        invariant
            values == st.messages@,
            read == Some(st),
            headers.root_of(proof.header) == Some(st.state_root),
            values.len() == n,
            n == messages_count,
            n <= max_messages,
            n == range_len(proof.nonces_start as int, proof.nonces_end as int),
            0 <= i <= values.len(),
            forall|j: int| 0 <= j < i ==> (#[trigger] values[j]) is Some,
        decreases values.len() - i,
    {
        if st.messages[i].is_none() {
            assert(values[i as int] is None);
            return Err(VerificationError::MissingMessage);
        }
        i = i + 1;
    }
    let mut messages: Vec<Message> = Vec::new();
    let mut total: u128 = 0;
    let mut i: usize = 0;
    while i < st.messages.len()
        invariant
            values == st.messages@,
            read == Some(st),
            headers.root_of(proof.header) == Some(st.state_root),
            n == messages_count,
            n <= max_messages,
            values.len() == n,
            n <= u32::MAX,
            proof.nonces_end >= proof.nonces_start || n == 0,
            n == range_len(proof.nonces_start as int, proof.nonces_end as int),
            0 <= i <= values.len(),
            forall|j: int| 0 <= j < values.len() ==> (#[trigger] values[j]) is Some,
            forall|j: int| 0 <= j < i ==> ((#[trigger] values[j]) matches Some(v) && v@.len() >= 16),
            messages@.len() == i,
            total == payload_total(values.subrange(0, i as int)),
            total <= i * 0x1_0000_0000_0000_0000,
            forall|j: int| 0 <= j < i ==> {
                &&& (#[trigger] messages@[j]).lane == proof.lane
                &&& messages@[j].nonce == proof.nonces_start + j
                &&& values[j] matches Some(v)
                &&& messages@[j].fee == u128_at(v@, 0)
                &&& messages@[j].payload@ == v@.subrange(16, v@.len() as int)
            },
        decreases values.len() - i,
    {
        let decoded = match &st.messages[i] {
            Some(v) => decode_message(v),
            None => None,
        };
        match decoded {
            None => {
                proof {
                    assert(values[i as int] matches Some(v) && v@.len() < 16);
                }
                return Err(VerificationError::FailedToDecodeMessage);
            },
            Some((fee, payload)) => {
                let size = payload.len();
                proof {
                    let w = values.subrange(0, i + 1);
                    assert(w.drop_last() =~= values.subrange(0, i as int));
                    assert(w.last() == values[i as int]);
                    assert(total + size <= (i + 1) * 0x1_0000_0000_0000_0000) by (nonlinear_arith)
                        requires
                            total <= i * 0x1_0000_0000_0000_0000,
                            size as int <= 0xffff_ffff_ffff_ffff,
                    ;
                }
                total = total + size as u128;
                messages.push(Message { lane: proof.lane, nonce: proof.nonces_start + i as u64, payload, fee });
            },
        }
        i = i + 1;
    }
    assert(values.subrange(0, values.len() as int) =~= values);
    if total > max_total_size as u128 {
        return Err(VerificationError::TooLarge);
    }
    let lane_state = match &st.outbound_lane_state {
        None => None,
        Some(v) => match OutboundLaneState::decode(v) {
            None => {
                return Err(VerificationError::FailedToDecodeLaneState);
            },
            Some(s) => Some(s),
        },
    };
    if n == 0 && lane_state.is_none() {
        return Err(VerificationError::Empty);
    }
    Ok(ProvedMessages { lane: proof.lane, lane_state, messages })
}

/// The inbound lane state that the bytes `v` encode, where they encode one.
pub open spec fn decoded_inbound_fields(v: Seq<u8>, s: InboundLaneState) -> bool {
    &&& s.last_confirmed_nonce == u64_at(v, 0)
    &&& s.last_delivered_nonce == u64_at(v, 8)
    &&& s.relayers@ == Seq::new(
        u32_at(v, 16) as nat,
        |i: int| entry_at(v, INBOUND_HEADER_SIZE + RELAYER_ENTRY_SIZE * i),
    )
}

/// Checks that the reward queue of a decoded state covers exactly its
/// delivered and unconfirmed nonces.
pub fn check_inbound_state(s: &InboundLaneState) -> (r: bool)
    ensures
        r == s.wf(),
{
    let q = &s.relayers;
    let confirmed = s.last_confirmed_nonce;
    let delivered = s.last_delivered_nonce;
    if confirmed > delivered {
        return false;
    }
    let n = q.len();
    if n == 0 {
        return confirmed == delivered;
    }
    if confirmed == delivered {
        return false;
    }
    if confirmed == u64::MAX || q[0].begin != confirmed + 1 || q[n - 1].end != delivered {
        return false;
    }
    let mut i: usize = 0;
    while i < n
        invariant
            n == q@.len(),
            q@ == s.relayers@,
            0 <= i <= n,
            forall|j: int| 0 <= j < i ==> #[trigger] q@[j].begin <= q@[j].end,
            forall|j: int| 0 < j < i ==> #[trigger] q@[j].begin == q@[j - 1].end + 1,
        decreases n - i,
    {
        if q[i].begin > q[i].end {
            proof {
                if s.wf() {
                    assert(q@[i as int].begin <= q@[i as int].end);
                }
            }
            return false;
        }
        if i > 0 && (q[i - 1].end == u64::MAX || q[i].begin != q[i - 1].end + 1) {
            proof {
                if s.wf() {
                    assert(q@[i as int].begin == q@[i - 1].end + 1);
                }
            }
            return false;
        }
        i = i + 1;
    }
    true
}

/// The stored inbound lane state that a delivery proof's read-out holds.
pub open spec fn read_inbound_value(read: Option<DeliveryStorage>) -> Option<Vec<u8>> {
    match read {
        Some(ds) => ds.inbound_lane_state,
        None => None,
    }
}

/// The first check that a delivery proof fails, if any.
pub open spec fn delivery_proof_error(root: Option<BlockHash>, read: Option<DeliveryStorage>) -> Option<VerificationError> {
    if root is None {
        Some(VerificationError::UnknownHeader)
    } else {
        match read {
            None => Some(VerificationError::InvalidStorageProof),
            Some(ds) => if root != Some(ds.state_root) {
                Some(VerificationError::InvalidStorageProof)
            } else {
                match ds.inbound_lane_state {
                    None => Some(VerificationError::MissingLaneState),
                    Some(v) => if !inbound_well_sized(v@) {
                        Some(VerificationError::FailedToDecodeLaneState)
                    } else {
                        None
                    },
                }
            },
        }
    }
}

/// What checking a delivery proof returns: the error of the first failed
/// check, or else the lane and the decoded state where its reward queue keeps
/// the lane invariant, and an error where it does not.
pub open spec fn delivery_proof_outcome(
    proof: MessagesDeliveryProof,
    root: Option<BlockHash>,
    read: Option<DeliveryStorage>,
    r: Result<(LaneId, InboundLaneState), VerificationError>,
) -> bool {
    &&& match delivery_proof_error(root, read) {
        Some(e) => r == Err::<(LaneId, InboundLaneState), VerificationError>(e),
        None => read_inbound_value(read) matches Some(v) && exists|s: InboundLaneState| decoded_inbound_fields(v@, s) && (if s.wf() {
            r == Ok::<(LaneId, InboundLaneState), VerificationError>((proof.lane, s))
        } else {
            r == Err::<(LaneId, InboundLaneState), VerificationError>(VerificationError::InvalidLaneState)
        }),
    }
    &&& (r matches Ok(p) ==> p.1.wf() && p.0 == proof.lane)
}

/// Checks a delivery proof and returns the lane and its proved inbound state.
/// `read` is what the storage-proof primitive read from `proof.storage_proof`
/// (`None` where it refused the proof); it must have been read against the
/// state root of `proof.header`. A state whose reward queue breaks the lane
/// invariant is refused.
pub fn verify_messages_delivery_proof(
    proof: &MessagesDeliveryProof,
    headers: &HeaderChain,
    read: Option<DeliveryStorage>,
) -> (r: Result<(LaneId, InboundLaneState), VerificationError>)
    ensures
        delivery_proof_outcome(*proof, headers.root_of(proof.header), read, r),
{
    let root = match headers.state_root(&proof.header) {
        None => {
            return Err(VerificationError::UnknownHeader);
        },
        Some(root) => root,
    };
    let ds = match read {
        None => {
            return Err(VerificationError::InvalidStorageProof);
        },
        Some(ds) => ds,
    };
    if !hashes_equal(&ds.state_root, &root) {
        return Err(VerificationError::InvalidStorageProof);
    }
    let value = match ds.inbound_lane_state {
        None => {
            return Err(VerificationError::MissingLaneState);
        },
        Some(v) => v,
    };
    let state = match InboundLaneState::decode(&value) {
        None => {
            return Err(VerificationError::FailedToDecodeLaneState);
        },
        Some(s) => s,
    };
    assert(decoded_inbound_fields(value@, state));
    if !check_inbound_state(&state) {
        return Err(VerificationError::InvalidLaneState);
    }
    Ok((proof.lane, state))
}

/// Where the storage read-out of a messages proof holds the encodings of the
/// stored messages of its range, and of the source lane state if any, read
/// against the state root of the proof's known header, and the proof passes
/// the count and size checks, the check returns exactly
/// those messages, with their nonces, fees and payloads, and that state.
pub proof fn lemma_messages_proof_reads_stored_messages(
    proof: MessagesProof,
    root: Option<BlockHash>,
    read: Option<MessagesStorage>,
    messages_count: u32,
    max_messages: MessageNonce,
    max_total_size: u64,
    r: Result<ProvedMessages, VerificationError>,
    fees: Seq<u128>,
    payloads: Seq<Seq<u8>>,
    lane_state: Option<OutboundLaneState>,
)
    requires
        root is Some,
        range_len(proof.nonces_start as int, proof.nonces_end as int) == messages_count,
        messages_count <= max_messages,
        read matches Some(st) && {
            &&& root == Some(st.state_root)
            &&& st.messages@.len() == messages_count
            &&& fees.len() == messages_count
            &&& payloads.len() == messages_count
            &&& forall|i: int| 0 <= i < messages_count ==> ((#[trigger] st.messages@[i]) matches Some(v)
                && v@ == message_bytes(fees[i], payloads[i]))
            &&& payload_total(st.messages@) <= max_total_size
            &&& match lane_state {
                None => st.outbound_lane_state is None && messages_count > 0,
                Some(s) => st.outbound_lane_state matches Some(v) && v@ == outbound_bytes(s),
            }
        },
        messages_proof_outcome(proof, root, read, messages_count, max_messages, max_total_size, r),
    ensures
        r matches Ok(p) && {
            &&& p.lane == proof.lane
            &&& p.lane_state == lane_state
            &&& p.messages@.len() == messages_count
            &&& forall|i: int| 0 <= i < messages_count ==> {
                &&& (#[trigger] p.messages@[i]).nonce == proof.nonces_start + i
                &&& p.messages@[i].lane == proof.lane
                &&& p.messages@[i].fee == fees[i]
                &&& p.messages@[i].payload@ == payloads[i]
            }
        },
{
    let st = read->Some_0;
    assert forall|i: int| 0 <= i < messages_count implies ((#[trigger] st.messages@[i]) matches Some(v)
        && v@.len() >= 16 && u128_at(v@, 0) == fees[i] && v@.subrange(16, v@.len() as int) == payloads[i]) by {
        lemma_message_round_trip(fees[i], payloads[i]);
    }
    match lane_state {
        Some(s) => {
            lemma_outbound_round_trip(s);
        },
        None => {},
    }
    assert(messages_proof_error(proof, root, read, messages_count, max_messages, max_total_size) is None);
    let p = r->Ok_0;
    assert forall|i: int| 0 <= i < messages_count implies {
        &&& (#[trigger] p.messages@[i]).nonce == proof.nonces_start + i
        &&& p.messages@[i].lane == proof.lane
        &&& p.messages@[i].fee == fees[i]
        &&& p.messages@[i].payload@ == payloads[i]
    } by {
        assert(st.messages@[i] matches Some(v) && u128_at(v@, 0) == fees[i]);
    }
}

/// Where the storage read-out of a delivery proof holds the encoding of a
/// well-formed inbound lane state, read against the state root of the proof's
/// known header, the check
/// returns exactly that state for the proof's lane.
pub proof fn lemma_delivery_proof_reads_stored_state(
    proof: MessagesDeliveryProof,
    root: Option<BlockHash>,
    read: Option<DeliveryStorage>,
    r: Result<(LaneId, InboundLaneState), VerificationError>,
    stored: InboundLaneState,
)
    requires
        root is Some,
        stored.wf(),
        stored.relayers@.len() <= u32::MAX,
        read matches Some(ds) && root == Some(ds.state_root),
        read_inbound_value(read) matches Some(v) && v@ == inbound_bytes(stored),
        delivery_proof_outcome(proof, root, read, r),
    ensures
        r matches Ok(p) && p.0 == proof.lane && p.1.last_confirmed_nonce == stored.last_confirmed_nonce
            && p.1.last_delivered_nonce == stored.last_delivered_nonce && p.1.relayers@
            == stored.relayers@,
{
    lemma_inbound_round_trip(stored);
    let v = read_inbound_value(read)->Some_0;
    assert(delivery_proof_error(root, read) is None);
    let s = choose|s: InboundLaneState| decoded_inbound_fields(v@, s) && (if s.wf() {
        r == Ok::<(LaneId, InboundLaneState), VerificationError>((proof.lane, s))
    } else {
        r == Err::<(LaneId, InboundLaneState), VerificationError>(VerificationError::InvalidLaneState)
    });
    assert(s.relayers@ == stored.relayers@);
    assert(s.wf());
}

} // verus!
