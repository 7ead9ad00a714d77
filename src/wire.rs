//! The binary encoding of lane states and stored messages, which the chain
//! that builds a proof and the chain that checks it must agree on byte for
//! byte. Integers are little-endian.

use crate::fee::Balance;
use vstd::prelude::*;

use crate::lane::{AccountId, InboundLaneState, OutboundLaneState, UnrewardedRelayer};

verus! {

/// Bytes of an encoded relayer entry: the account, then the first and the last nonce.
pub const RELAYER_ENTRY_SIZE: usize = 48;

/// Bytes before the first relayer entry of an encoded inbound lane state: the
/// last confirmed nonce, the last delivered nonce and the entry count.
pub const INBOUND_HEADER_SIZE: usize = 20;

/// The value of the eight little-endian bytes of `b` at `o`.
pub open spec fn u64_at(b: Seq<u8>, o: int) -> u64 {
    (b[o] as u64) | ((b[o + 1] as u64) << 8u64) | ((b[o + 2] as u64) << 16u64) | ((b[o + 3]
        as u64) << 24u64) | ((b[o + 4] as u64) << 32u64) | ((b[o + 5] as u64) << 40u64) | ((b[o
        + 6] as u64) << 48u64) | ((b[o + 7] as u64) << 56u64)
}

/// The value of the four little-endian bytes of `b` at `o`.
pub open spec fn u32_at(b: Seq<u8>, o: int) -> u32 {
    (b[o] as u32) | ((b[o + 1] as u32) << 8u32) | ((b[o + 2] as u32) << 16u32) | ((b[o + 3]
        as u32) << 24u32)
}

/// The value of the sixteen little-endian bytes of `b` at `o`.
pub open spec fn u128_at(b: Seq<u8>, o: int) -> u128 {
    ((u64_at(b, o + 8) as u128) << 64u128) | (u64_at(b, o) as u128)
}

/// The eight little-endian bytes of `x`.
pub open spec fn u64_bytes(x: u64) -> Seq<u8> {
    seq![
        (x & 0xff) as u8,
        ((x >> 8u64) & 0xff) as u8,
        ((x >> 16u64) & 0xff) as u8,
        ((x >> 24u64) & 0xff) as u8,
        ((x >> 32u64) & 0xff) as u8,
        ((x >> 40u64) & 0xff) as u8,
        ((x >> 48u64) & 0xff) as u8,
        ((x >> 56u64) & 0xff) as u8,
    ]
}

/// The four little-endian bytes of `x`.
pub open spec fn u32_bytes(x: u32) -> Seq<u8> {
    seq![
        (x & 0xff) as u8,
        ((x >> 8u32) & 0xff) as u8,
        ((x >> 16u32) & 0xff) as u8,
        ((x >> 24u32) & 0xff) as u8,
    ]
}

/// The sixteen little-endian bytes of `x`.
pub open spec fn u128_bytes(x: u128) -> Seq<u8> {
    u64_bytes(x as u64) + u64_bytes((x >> 64u128) as u64)
}

/// The encoding of an outbound lane state: latest generated, then latest received nonce.
pub open spec fn outbound_bytes(s: OutboundLaneState) -> Seq<u8> {
    u64_bytes(s.latest_generated_nonce) + u64_bytes(s.latest_received_nonce)
}

/// The encoding of a stored message: its fee, then its payload.
pub open spec fn message_bytes(fee: Balance, payload: Seq<u8>) -> Seq<u8> {
    u128_bytes(fee) + payload
}

/// The encoding of one relayer entry.
pub open spec fn entry_bytes(e: UnrewardedRelayer) -> Seq<u8> {
    e.relayer@ + u64_bytes(e.begin) + u64_bytes(e.end)
}

/// The encodings of the entries of `q`, one after another.
pub open spec fn entries_bytes(q: Seq<UnrewardedRelayer>) -> Seq<u8>
    decreases q.len(),
{
    if q.len() == 0 {
        seq![]
    } else {
        entries_bytes(q.drop_last()) + entry_bytes(q.last())
    }
}

/// The encoding of an inbound lane state: the last confirmed and the last
/// delivered nonce, the number of relayer entries, then the entries.
pub open spec fn inbound_bytes(s: InboundLaneState) -> Seq<u8> {
    u64_bytes(s.last_confirmed_nonce) + u64_bytes(s.last_delivered_nonce) + u32_bytes(
        s.relayers@.len() as u32,
    ) + entries_bytes(s.relayers@)
}

/// The relayer entry encoded at `o`.
pub open spec fn entry_at(b: Seq<u8>, o: int) -> UnrewardedRelayer {
    UnrewardedRelayer {
        relayer: account_at(b, o),
        begin: u64_at(b, o + 32),
        end: u64_at(b, o + 40),
    }
}

/// The account whose 32 bytes stand at `o`.
pub open spec fn account_at(b: Seq<u8>, o: int) -> AccountId {
    choose|a: AccountId| a@ == b.subrange(o, o + 32)
}

/// Whether `b` is an encoded inbound lane state: its length is that of the
/// header and as many entries as the header counts.
pub open spec fn inbound_well_sized(b: Seq<u8>) -> bool {
    &&& b.len() >= INBOUND_HEADER_SIZE
    &&& b.len() == INBOUND_HEADER_SIZE + RELAYER_ENTRY_SIZE * u32_at(b, 16)
}

/// The size of an encoded inbound lane state with `entries` relayer entries
/// whose accounts take `account_size` bytes, where it fits a `u32`.
pub open spec fn inbound_size_hint_spec(account_size: int, entries: int) -> Option<u32> {
    let n = INBOUND_HEADER_SIZE + entries * (account_size + 16);
    if n > u32::MAX {
        None
    } else {
        Some(n as u32)
    }
}

proof fn lemma_u64_round_trip(x: u64)
    ensures
        u64_at(u64_bytes(x), 0) == x,
{
    let b = u64_bytes(x);
    let b0 = (x & 0xff) as u8;
    let b1 = ((x >> 8u64) & 0xff) as u8;
    let b2 = ((x >> 16u64) & 0xff) as u8;
    let b3 = ((x >> 24u64) & 0xff) as u8;
    let b4 = ((x >> 32u64) & 0xff) as u8;
    let b5 = ((x >> 40u64) & 0xff) as u8;
    let b6 = ((x >> 48u64) & 0xff) as u8;
    let b7 = ((x >> 56u64) & 0xff) as u8;
    assert(b[0] == b0 && b[1] == b1 && b[2] == b2 && b[3] == b3);
    assert(b[4] == b4 && b[5] == b5 && b[6] == b6 && b[7] == b7);
    assert((b0 as u64) | ((b1 as u64) << 8u64) | ((b2 as u64) << 16u64) | ((b3 as u64) << 24u64)
        | ((b4 as u64) << 32u64) | ((b5 as u64) << 40u64) | ((b6 as u64) << 48u64) | ((b7 as u64)
        << 56u64) == x) by (bit_vector)
        requires
            b0 == (x & 0xff) as u8,
            b1 == ((x >> 8u64) & 0xff) as u8,
            b2 == ((x >> 16u64) & 0xff) as u8,
            b3 == ((x >> 24u64) & 0xff) as u8,
            b4 == ((x >> 32u64) & 0xff) as u8,
            b5 == ((x >> 40u64) & 0xff) as u8,
            b6 == ((x >> 48u64) & 0xff) as u8,
            b7 == ((x >> 56u64) & 0xff) as u8,
    ;
}

proof fn lemma_u32_round_trip(x: u32)
    ensures
        u32_at(u32_bytes(x), 0) == x,
{
    let b = u32_bytes(x);
    let b0 = (x & 0xff) as u8;
    let b1 = ((x >> 8u32) & 0xff) as u8;
    let b2 = ((x >> 16u32) & 0xff) as u8;
    let b3 = ((x >> 24u32) & 0xff) as u8;
    assert(b[0] == b0 && b[1] == b1 && b[2] == b2 && b[3] == b3);
    assert((b0 as u32) | ((b1 as u32) << 8u32) | ((b2 as u32) << 16u32) | ((b3 as u32) << 24u32)
        == x) by (bit_vector)
        requires
            b0 == (x & 0xff) as u8,
            b1 == ((x >> 8u32) & 0xff) as u8,
            b2 == ((x >> 16u32) & 0xff) as u8,
            b3 == ((x >> 24u32) & 0xff) as u8,
    ;
}

/// Reads the little-endian `u64` at `o`.
pub fn read_u64(bytes: &Vec<u8>, o: usize) -> (r: u64)
    requires
        o + 8 <= bytes@.len(),
    ensures
        r == u64_at(bytes@, o as int),
{
    let _len = bytes.len();
    (bytes[o] as u64) | ((bytes[o + 1] as u64) << 8u64) | ((bytes[o + 2] as u64) << 16u64) | ((
    bytes[o + 3] as u64) << 24u64) | ((bytes[o + 4] as u64) << 32u64) | ((bytes[o + 5] as u64)
        << 40u64) | ((bytes[o + 6] as u64) << 48u64) | ((bytes[o + 7] as u64) << 56u64)
}

/// Reads the little-endian `u32` at `o`.
pub fn read_u32(bytes: &Vec<u8>, o: usize) -> (r: u32)
    requires
        o + 4 <= bytes@.len(),
    ensures
        r == u32_at(bytes@, o as int),
{
    let _len = bytes.len();
    (bytes[o] as u32) | ((bytes[o + 1] as u32) << 8u32) | ((bytes[o + 2] as u32) << 16u32) | ((
    bytes[o + 3] as u32) << 24u32)
}

/// Reads the little-endian `u128` at `o`.
pub fn read_u128(bytes: &Vec<u8>, o: usize) -> (r: u128)
    requires
        o + 16 <= bytes@.len(),
    ensures
        r == u128_at(bytes@, o as int),
{
    let _len = bytes.len();
    ((read_u64(bytes, o + 8) as u128) << 64u128) | (read_u64(bytes, o) as u128)
}

/// Appends the little-endian bytes of `x`.
pub fn push_u64(out: &mut Vec<u8>, x: u64)
    ensures
        final(out)@ == old(out)@ + u64_bytes(x),
{
    out.push((x & 0xff) as u8);
    out.push(((x >> 8u64) & 0xff) as u8);
    out.push(((x >> 16u64) & 0xff) as u8);
    out.push(((x >> 24u64) & 0xff) as u8);
    out.push(((x >> 32u64) & 0xff) as u8);
    out.push(((x >> 40u64) & 0xff) as u8);
    out.push(((x >> 48u64) & 0xff) as u8);
    out.push(((x >> 56u64) & 0xff) as u8);
    assert(final(out)@ =~= old(out)@ + u64_bytes(x));
}

/// Appends the little-endian bytes of `x`.
pub fn push_u32(out: &mut Vec<u8>, x: u32)
    ensures
        final(out)@ == old(out)@ + u32_bytes(x),
{
    out.push((x & 0xff) as u8);
    out.push(((x >> 8u32) & 0xff) as u8);
    out.push(((x >> 16u32) & 0xff) as u8);
    out.push(((x >> 24u32) & 0xff) as u8);
    assert(final(out)@ =~= old(out)@ + u32_bytes(x));
}

/// Appends the little-endian bytes of `x`.
pub fn push_u128(out: &mut Vec<u8>, x: u128)
    ensures
        final(out)@ == old(out)@ + u128_bytes(x),
{
    push_u64(out, x as u64);
    push_u64(out, (x >> 64u128) as u64);
    assert(final(out)@ =~= old(out)@ + u128_bytes(x));
}

/// Appends every byte of `src`.
fn push_all(out: &mut Vec<u8>, src: &[u8])
    ensures
        final(out)@ == old(out)@ + src@,
{
    let mut i: usize = 0;
    while i < src.len()
        invariant
            0 <= i <= src@.len(),
            out@ == old(out)@ + src@.subrange(0, i as int),
        decreases src@.len() - i,
    {
        out.push(src[i]);
        assert(src@.subrange(0, i + 1) =~= src@.subrange(0, i as int).push(src@[i as int]));
        i = i + 1;
    }
    assert(src@.subrange(0, src@.len() as int) =~= src@);
}

impl OutboundLaneState {
    /// The encoding of this state.
    pub fn encode(&self) -> (r: Vec<u8>)
        ensures
            r@ == outbound_bytes(*self),
    {
        let mut out: Vec<u8> = Vec::new();
        push_u64(&mut out, self.latest_generated_nonce);
        push_u64(&mut out, self.latest_received_nonce);
        assert(out@ =~= outbound_bytes(*self));
        out
    }

    /// Decodes a state: exactly sixteen bytes, the latest generated nonce first.
    pub fn decode(bytes: &Vec<u8>) -> (r: Option<OutboundLaneState>)
        ensures
            r is Some <==> bytes@.len() == 16,
            r matches Some(s) ==> s.latest_generated_nonce == u64_at(bytes@, 0)
                && s.latest_received_nonce == u64_at(bytes@, 8),
    {
        if bytes.len() != 16 {
            return None;
        }
        Some(
            OutboundLaneState {
                latest_generated_nonce: read_u64(bytes, 0),
                latest_received_nonce: read_u64(bytes, 8),
            },
        )
    }
}

/// The encoding of a stored message with this fee and payload.
pub fn encode_message(fee: Balance, payload: &Vec<u8>) -> (r: Vec<u8>)
    ensures
        r@ == message_bytes(fee, payload@),
{
    let mut out: Vec<u8> = Vec::new();
    push_u128(&mut out, fee);
    push_all(&mut out, payload.as_slice());
    assert(out@ =~= message_bytes(fee, payload@));
    out
}

/// Decodes a stored message into its fee and payload: at least sixteen bytes,
/// the fee first and the payload after it.
pub fn decode_message(bytes: &Vec<u8>) -> (r: Option<(Balance, Vec<u8>)>)
    ensures
        r is Some <==> bytes@.len() >= 16,
        r matches Some(m) ==> m.0 == u128_at(bytes@, 0) && m.1@ == bytes@.subrange(
            16,
            bytes@.len() as int,
        ),
{
    if bytes.len() < 16 {
        return None;
    }
    let fee = read_u128(bytes, 0);
    let mut payload: Vec<u8> = Vec::new();
    let mut i: usize = 16;
    while i < bytes.len()
        invariant
            16 <= i <= bytes@.len(),
            payload@ == bytes@.subrange(16, i as int),
        decreases bytes@.len() - i,
    {
        payload.push(bytes[i]);
        assert(bytes@.subrange(16, i + 1) =~= bytes@.subrange(16, i as int).push(bytes@[i as int]));
        i = i + 1;
    }
    Some((fee, payload))
}

fn read_account(bytes: &Vec<u8>, o: usize) -> (r: AccountId)
    requires
        o + 32 <= bytes@.len(),
    ensures
        r@ == bytes@.subrange(o as int, o + 32),
{
    let _len = bytes.len();
    let b = bytes;
    let r: AccountId = [
        b[o], b[o + 1], b[o + 2], b[o + 3], b[o + 4], b[o + 5], b[o + 6], b[o + 7],
        b[o + 8], b[o + 9], b[o + 10], b[o + 11], b[o + 12], b[o + 13], b[o + 14], b[o + 15],
        b[o + 16], b[o + 17], b[o + 18], b[o + 19], b[o + 20], b[o + 21], b[o + 22], b[o + 23],
        b[o + 24], b[o + 25], b[o + 26], b[o + 27], b[o + 28], b[o + 29], b[o + 30], b[o + 31],
    ];
    assert(r@ =~= bytes@.subrange(o as int, o + 32));
    r
}

fn push_account(out: &mut Vec<u8>, a: &AccountId)
    ensures
        final(out)@ == old(out)@ + a@,
{
    let mut k: usize = 0;
    while k < 32
        invariant
            0 <= k <= 32,
            a@.len() == 32,
            out@ == old(out)@ + a@.subrange(0, k as int),
        decreases 32 - k,
    {
        out.push(a[k]);
        assert(a@.subrange(0, k + 1) =~= a@.subrange(0, k as int).push(a@[k as int]));
        k = k + 1;
    }
    assert(a@.subrange(0, 32) =~= a@);
}

proof fn lemma_account_at(b: Seq<u8>, o: int, a: AccountId)
    requires
        a@ == b.subrange(o, o + 32),
    ensures
        account_at(b, o) == a,
{
    broadcast use vstd::array::group_array_axioms;

    let c = account_at(b, o);
    assert(c@ == b.subrange(o, o + 32));
    assert forall|i: int| 0 <= i < 32 implies c[i] == a[i] by {
        assert(c@[i] == a@[i]);
    }
    assert(c =~= a);
}

impl InboundLaneState {
    /// The size of an encoded state with `relayers_entries` entries whose
    /// accounts take `relayer_id_encoded_size` bytes; `None` where it exceeds
    /// `u32::MAX`.
    pub fn encoded_size_hint(relayer_id_encoded_size: u32, relayers_entries: u32) -> (r: Option<u32>)
        ensures
            r == inbound_size_hint_spec(relayer_id_encoded_size as int, relayers_entries as int),
    {
        let entry = relayer_id_encoded_size as u128 + 16;
        proof {
            assert((relayers_entries as u128) * entry <= 0x1_0000_0000u128 * 0x1_0000_0010u128)
                by (nonlinear_arith)
                requires
                    relayers_entries <= u32::MAX,
                    entry <= 0x1_0000_0010u128,
            ;
        }
        let n = 20 + (relayers_entries as u128) * entry;
        if n > u32::MAX as u128 {
            None
        } else {
            Some(n as u32)
        }
    }

    /// The encoding of this state.
    pub fn encode(&self) -> (r: Vec<u8>)
        requires
            self.relayers@.len() <= u32::MAX,
        ensures
            r@ == inbound_bytes(*self),
    {
        let mut out: Vec<u8> = Vec::new();
        push_u64(&mut out, self.last_confirmed_nonce);
        push_u64(&mut out, self.last_delivered_nonce);
        push_u32(&mut out, self.relayers.len() as u32);
        let ghost head = out@;
        let mut i: usize = 0;
        while i < self.relayers.len()
            invariant
                0 <= i <= self.relayers@.len(),
                out@ == head + entries_bytes(self.relayers@.subrange(0, i as int)),
            decreases self.relayers@.len() - i,
        {
            let e = self.relayers[i];
            push_account(&mut out, &e.relayer);
            push_u64(&mut out, e.begin);
            push_u64(&mut out, e.end);
            proof {
                let q = self.relayers@.subrange(0, i + 1);
                assert(q.drop_last() =~= self.relayers@.subrange(0, i as int));
                assert(q.last() == e);
                assert(out@ =~= head + entries_bytes(q));
            }
            i = i + 1;
        }
        assert(self.relayers@.subrange(0, self.relayers@.len() as int) =~= self.relayers@);
        assert(out@ =~= inbound_bytes(*self));
        out
    }

    /// Decodes a state: the header, then exactly as many entries as it counts.
    pub fn decode(bytes: &Vec<u8>) -> (r: Option<InboundLaneState>)
        ensures
            r is Some <==> inbound_well_sized(bytes@),
            r matches Some(s) ==> {
                &&& s.last_confirmed_nonce == u64_at(bytes@, 0)
                &&& s.last_delivered_nonce == u64_at(bytes@, 8)
                &&& s.relayers@ == Seq::new(
                    u32_at(bytes@, 16) as nat,
                    |i: int| entry_at(bytes@, INBOUND_HEADER_SIZE + RELAYER_ENTRY_SIZE * i),
                )
            },
    {
        if bytes.len() < INBOUND_HEADER_SIZE {
            return None;
        }
        let count = read_u32(bytes, 16);
        if bytes.len() as u64 != INBOUND_HEADER_SIZE as u64 + RELAYER_ENTRY_SIZE as u64 * count as u64 {
            return None;
        }
        let ghost b = bytes@;
        let mut relayers: Vec<UnrewardedRelayer> = Vec::new();
        let mut i: usize = 0;
        let mut o: usize = INBOUND_HEADER_SIZE;
        while i < count as usize
            invariant
                b == bytes@,
                b.len() <= usize::MAX,
                b.len() == INBOUND_HEADER_SIZE + RELAYER_ENTRY_SIZE * count,
                0 <= i <= count,
                o == INBOUND_HEADER_SIZE + RELAYER_ENTRY_SIZE * i,
                relayers@ == Seq::new(
                    i as nat,
                    |k: int| entry_at(b, INBOUND_HEADER_SIZE + RELAYER_ENTRY_SIZE * k),
                ),
            decreases count - i,
        {
            let relayer = read_account(bytes, o);
            let begin = read_u64(bytes, o + 32);
            let end = read_u64(bytes, o + 40);
            let e = UnrewardedRelayer { relayer, begin, end };
            proof {
                lemma_account_at(b, o as int, relayer);
            }
            relayers.push(e);
            assert(relayers@ =~= Seq::new(
                (i + 1) as nat,
                |k: int| entry_at(b, INBOUND_HEADER_SIZE + RELAYER_ENTRY_SIZE * k),
            ));
            i = i + 1;
            o = o + RELAYER_ENTRY_SIZE;
        }
        Some(
            InboundLaneState {
                relayers,
                last_confirmed_nonce: read_u64(bytes, 0),
                last_delivered_nonce: read_u64(bytes, 8),
            },
        )
    }
}

proof fn lemma_u64_at_concat(a: Seq<u8>, c: Seq<u8>, o: int)
    requires
        0 <= o,
        o + 8 <= c.len(),
    ensures
        u64_at(a + c, a.len() + o) == u64_at(c, o),
        u64_at(c + a, o) == u64_at(c, o),
{
    let l = a.len() as int;
    assert((a + c)[l + o] == c[o] && (c + a)[o] == c[o]);
    assert((a + c)[l + o + 1] == c[o + 1] && (c + a)[o + 1] == c[o + 1]);
    assert((a + c)[l + o + 2] == c[o + 2] && (c + a)[o + 2] == c[o + 2]);
    assert((a + c)[l + o + 3] == c[o + 3] && (c + a)[o + 3] == c[o + 3]);
    assert((a + c)[l + o + 4] == c[o + 4] && (c + a)[o + 4] == c[o + 4]);
    assert((a + c)[l + o + 5] == c[o + 5] && (c + a)[o + 5] == c[o + 5]);
    assert((a + c)[l + o + 6] == c[o + 6] && (c + a)[o + 6] == c[o + 6]);
    assert((a + c)[l + o + 7] == c[o + 7] && (c + a)[o + 7] == c[o + 7]);
}

proof fn lemma_u32_at_concat(a: Seq<u8>, c: Seq<u8>, o: int)
    requires
        0 <= o,
        o + 4 <= c.len(),
    ensures
        u32_at(a + c, a.len() + o) == u32_at(c, o),
        u32_at(c + a, o) == u32_at(c, o),
{
    let l = a.len() as int;
    assert((a + c)[l + o] == c[o] && (c + a)[o] == c[o]);
    assert((a + c)[l + o + 1] == c[o + 1] && (c + a)[o + 1] == c[o + 1]);
    assert((a + c)[l + o + 2] == c[o + 2] && (c + a)[o + 2] == c[o + 2]);
    assert((a + c)[l + o + 3] == c[o + 3] && (c + a)[o + 3] == c[o + 3]);
}

/// Decoding an encoded outbound lane state gives the state back.
pub proof fn lemma_outbound_round_trip(s: OutboundLaneState)
    ensures
        outbound_bytes(s).len() == 16,
        u64_at(outbound_bytes(s), 0) == s.latest_generated_nonce,
        u64_at(outbound_bytes(s), 8) == s.latest_received_nonce,
{
    let g = u64_bytes(s.latest_generated_nonce);
    let r = u64_bytes(s.latest_received_nonce);
    lemma_u64_round_trip(s.latest_generated_nonce);
    lemma_u64_round_trip(s.latest_received_nonce);
    lemma_u64_at_concat(r, g, 0);
    lemma_u64_at_concat(g, r, 0);
}

/// Decoding an encoded stored message gives its fee and payload back.
pub proof fn lemma_message_round_trip(fee: Balance, payload: Seq<u8>)
    ensures
        message_bytes(fee, payload).len() >= 16,
        u128_at(message_bytes(fee, payload), 0) == fee,
        message_bytes(fee, payload).subrange(16, message_bytes(fee, payload).len() as int) == payload,
{
    let lo = u64_bytes(fee as u64);
    let hi = u64_bytes((fee >> 64u128) as u64);
    let b = message_bytes(fee, payload);
    assert(b == lo + (hi + payload)) by {
        assert(b =~= lo + (hi + payload));
    }
    lemma_u64_round_trip(fee as u64);
    lemma_u64_round_trip((fee >> 64u128) as u64);
    lemma_u64_at_concat(hi + payload, lo, 0);
    lemma_u64_at_concat(payload, hi, 0);
    lemma_u64_at_concat(lo, hi + payload, 0);
    assert(u64_at(b, 0) == fee as u64);
    assert(u64_at(b, 8) == (fee >> 64u128) as u64);
    let x = fee;
    assert(((((x >> 64u128) as u64) as u128) << 64u128) | ((x as u64) as u128) == x) by (bit_vector);
    assert(b.subrange(16, b.len() as int) =~= payload);
}

proof fn lemma_entries_bytes(q: Seq<UnrewardedRelayer>, i: int)
    requires
        0 <= i < q.len(),
    ensures
        entries_bytes(q).len() == RELAYER_ENTRY_SIZE * q.len(),
        entries_bytes(q).subrange(RELAYER_ENTRY_SIZE * i, RELAYER_ENTRY_SIZE * i + RELAYER_ENTRY_SIZE)
            == entry_bytes(q[i]),
    decreases q.len(),
{
    broadcast use vstd::array::group_array_axioms;

    lemma_entries_len(q);
    let p = q.drop_last();
    lemma_entries_len(p);
    if i < q.len() - 1 {
        lemma_entries_bytes(p, i);
        assert(entries_bytes(q).subrange(RELAYER_ENTRY_SIZE * i, RELAYER_ENTRY_SIZE * i + RELAYER_ENTRY_SIZE)
            =~= entries_bytes(p).subrange(RELAYER_ENTRY_SIZE * i, RELAYER_ENTRY_SIZE * i + RELAYER_ENTRY_SIZE));
    } else {
        assert(entries_bytes(q).subrange(RELAYER_ENTRY_SIZE * i, RELAYER_ENTRY_SIZE * i + RELAYER_ENTRY_SIZE)
            =~= entry_bytes(q[i]));
    }
}

proof fn lemma_entries_len(q: Seq<UnrewardedRelayer>)
    ensures
        entries_bytes(q).len() == RELAYER_ENTRY_SIZE * q.len(),
    decreases q.len(),
{
    broadcast use vstd::array::group_array_axioms;

    if q.len() > 0 {
        lemma_entries_len(q.drop_last());
        assert(q.last().relayer@.len() == 32);
    }
}

proof fn lemma_entry_round_trip(b: Seq<u8>, o: int, e: UnrewardedRelayer)
    requires
        0 <= o,
        o + RELAYER_ENTRY_SIZE <= b.len(),
        b.subrange(o, o + RELAYER_ENTRY_SIZE) == entry_bytes(e),
    ensures
        entry_at(b, o) == e,
{
    broadcast use vstd::array::group_array_axioms;

    let w = entry_bytes(e);
    assert(e.relayer@.len() == 32);
    assert(b.subrange(o, o + 32) =~= e.relayer@) by {
        assert forall|k: int| 0 <= k < 32 implies b.subrange(o, o + 32)[k] == e.relayer@[k] by {
            assert(b[o + k] == w[k]);
        }
    }
    lemma_account_at(b, o, e.relayer);
    let pre = b.subrange(0, o);
    let post = b.subrange(o + RELAYER_ENTRY_SIZE, b.len() as int);
    assert(b =~= pre + b.subrange(o, o + RELAYER_ENTRY_SIZE) + post);
    assert(pre + w + post =~= pre + (e.relayer@ + (u64_bytes(e.begin) + (u64_bytes(e.end) + post))));
    lemma_u64_round_trip(e.begin);
    lemma_u64_round_trip(e.end);
    lemma_u64_at_concat(u64_bytes(e.end) + post, u64_bytes(e.begin), 0);
    lemma_u64_at_concat(post, u64_bytes(e.end), 0);
    lemma_u64_at_concat(pre + e.relayer@, u64_bytes(e.begin) + (u64_bytes(e.end) + post), 0);
    lemma_u64_at_concat(pre + e.relayer@ + u64_bytes(e.begin), u64_bytes(e.end) + post, 0);
    assert(pre + (e.relayer@ + (u64_bytes(e.begin) + (u64_bytes(e.end) + post))) =~= (pre + e.relayer@)
        + (u64_bytes(e.begin) + (u64_bytes(e.end) + post)));
    assert(pre + (e.relayer@ + (u64_bytes(e.begin) + (u64_bytes(e.end) + post))) =~= (pre + e.relayer@
        + u64_bytes(e.begin)) + (u64_bytes(e.end) + post));
}

/// Decoding an encoded inbound lane state gives the state back: its nonces,
/// and its relayer entries in order.
pub proof fn lemma_inbound_round_trip(s: InboundLaneState)
    requires
        s.relayers@.len() <= u32::MAX,
    ensures
        inbound_well_sized(inbound_bytes(s)),
        u64_at(inbound_bytes(s), 0) == s.last_confirmed_nonce,
        u64_at(inbound_bytes(s), 8) == s.last_delivered_nonce,
        u32_at(inbound_bytes(s), 16) == s.relayers@.len(),
        Seq::new(
            u32_at(inbound_bytes(s), 16) as nat,
            |i: int| entry_at(inbound_bytes(s), INBOUND_HEADER_SIZE + RELAYER_ENTRY_SIZE * i),
        ) == s.relayers@,
{
    let q = s.relayers@;
    let c = u64_bytes(s.last_confirmed_nonce);
    let d = u64_bytes(s.last_delivered_nonce);
    let n = u32_bytes(q.len() as u32);
    let es = entries_bytes(q);
    let b = inbound_bytes(s);
    lemma_entries_len(q);
    assert(b =~= c + (d + (n + es)));
    lemma_u64_round_trip(s.last_confirmed_nonce);
    lemma_u64_round_trip(s.last_delivered_nonce);
    lemma_u32_round_trip(q.len() as u32);
    lemma_u64_at_concat(d + (n + es), c, 0);
    lemma_u64_at_concat(c, d + (n + es), 0);
    lemma_u64_at_concat(n + es, d, 0);
    assert(c + (d + (n + es)) =~= (c + d) + (n + es));
    lemma_u32_at_concat(c + d, n + es, 0);
    lemma_u32_at_concat(es, n, 0);
    let head = c + d + n;
    assert(b =~= head + es);
    let decoded = Seq::new(
        u32_at(b, 16) as nat,
        |i: int| entry_at(b, INBOUND_HEADER_SIZE + RELAYER_ENTRY_SIZE * i),
    );
    assert forall|i: int| 0 <= i < q.len() implies #[trigger] decoded[i] == q[i] by {
        lemma_entries_bytes(q, i);
        let o = INBOUND_HEADER_SIZE + RELAYER_ENTRY_SIZE * i;
        assert(b.subrange(o, o + RELAYER_ENTRY_SIZE) =~= es.subrange(
            RELAYER_ENTRY_SIZE * i,
            RELAYER_ENTRY_SIZE * i + RELAYER_ENTRY_SIZE,
        ));
        lemma_entry_round_trip(b, o, q[i]);
    }
    assert(decoded =~= q);
}

} // verus!
