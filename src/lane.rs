//! The lane data model and its transitions: sending at the source, receiving
//! and pruning at the target, and confirming delivery back at the source.

use crate::fee::Balance;
use vstd::prelude::*;

verus! {

/// Identifier of a lane: an independent, ordered channel between two chains.
pub type LaneId = [u8; 4];

/// Sequence number of a message within its lane; the first message has nonce 1.
pub type MessageNonce = u64;

/// An account on either chain.
pub type AccountId = [u8; 32];

/// A message as the outbound lane stores it and a messages proof carries it.
#[derive(Clone, Debug, PartialEq, Eq)]
pub struct Message {
    pub lane: LaneId,
    pub nonce: MessageNonce,
    pub payload: Vec<u8>,
    pub fee: Balance,
}

/// Nonce state of the sending end of a lane.
#[derive(Clone, Copy, Debug, PartialEq, Eq, Structural)]
pub struct OutboundLaneState {
    pub latest_generated_nonce: MessageNonce,
    pub latest_received_nonce: MessageNonce,
}

/// A relayer and the nonces `begin..=end` that it delivered and that are not
/// yet confirmed at the source.
#[derive(Clone, Copy, Debug, PartialEq, Eq)]
pub struct UnrewardedRelayer {
    pub relayer: AccountId,
    pub begin: MessageNonce,
    pub end: MessageNonce,
}

/// Nonce state of the receiving end of a lane.
#[derive(Clone, Debug, PartialEq, Eq)]
pub struct InboundLaneState {
    pub relayers: Vec<UnrewardedRelayer>,
    pub last_confirmed_nonce: MessageNonce,
    pub last_delivered_nonce: MessageNonce,
}

/// Why a message was not sent.
#[derive(Clone, Copy, Debug, PartialEq, Eq, Structural)]
pub enum SendError {
    /// The lane policy does not accept messages from this origin on this lane.
    NotAccepted,
    /// The dispatch weight is outside the limits that the bridged chain sets.
    DispatchWeightOutOfLimits,
    /// The payload exceeds the largest message that the bridged chain takes.
    PayloadTooLarge,
    /// Too many messages are sent and not yet confirmed.
    CapacityExhausted,
    /// The lane has used every nonce.
    NonceOverflow,
}

/// Why a batch of messages was not received.
#[derive(Clone, Copy, Debug, PartialEq, Eq, Structural)]
pub enum ReceiveError {
    NoMessages,
    WrongLane,
    /// The nonces do not run on from the last delivered nonce without a gap.
    UnexpectedNonce,
    TooManyUnrewardedRelayers,
    TooManyUnconfirmedMessages,
}

/// Why a delivery confirmation was refused.
#[derive(Clone, Copy, Debug, PartialEq, Eq, Structural)]
pub enum ConfirmError {
    /// The target claims delivery of nonces that were never generated.
    DeliveredNonceNotGenerated,
}

/// What a delivery confirmation settled: the nonces `begin..=end` that are now
/// known to be delivered, and the relayers owed a reward for them.
#[derive(Clone, Debug, PartialEq, Eq)]
pub struct DeliveryConfirmation {
    pub begin: MessageNonce,
    pub end: MessageNonce,
    pub rewards: Vec<UnrewardedRelayer>,
}

/// Whether two four-byte identifiers, of lanes or of chains, are the same.
pub fn ids_equal(a: &[u8; 4], b: &[u8; 4]) -> (r: bool)
    ensures
        r == (*a == *b),
{
    let r = a[0] == b[0] && a[1] == b[1] && a[2] == b[2] && a[3] == b[3];
    proof {
        broadcast use vstd::array::group_array_axioms;

        if r {
            assert(*a =~= *b);
        }
    }
    r
}

impl OutboundLaneState {
    pub open spec fn wf(&self) -> bool {
        self.latest_received_nonce <= self.latest_generated_nonce
    }

    /// The state of a lane on which nothing was sent.
    pub fn new() -> (r: OutboundLaneState)
        ensures
            r.latest_generated_nonce == 0,
            r.latest_received_nonce == 0,
    {
        OutboundLaneState { latest_generated_nonce: 0, latest_received_nonce: 0 }
    }
}

/// The outcome of sending one message: the new state, whose latest generated
/// nonce is the nonce of the message.
pub open spec fn send_spec(s: OutboundLaneState, max_pending: MessageNonce) -> Result<
    OutboundLaneState,
    SendError,
> {
    if s.latest_generated_nonce - s.latest_received_nonce >= max_pending {
        Err(SendError::CapacityExhausted)
    } else if s.latest_generated_nonce == u64::MAX {
        Err(SendError::NonceOverflow)
    } else {
        Ok(
            OutboundLaneState {
                latest_generated_nonce: (s.latest_generated_nonce + 1) as u64,
                ..s
            },
        )
    }
}

/// The outcome of a confirmation that the target delivered every nonce up to
/// `delivered`: `None` where nothing new is confirmed.
pub open spec fn confirm_spec(s: OutboundLaneState, delivered: MessageNonce) -> Result<
    Option<OutboundLaneState>,
    ConfirmError,
> {
    if delivered > s.latest_generated_nonce {
        Err(ConfirmError::DeliveredNonceNotGenerated)
    } else if delivered <= s.latest_received_nonce {
        Ok(None)
    } else {
        Ok(Some(OutboundLaneState { latest_received_nonce: delivered, ..s }))
    }
}

/// The part of entry `e` that lies in `lo..=hi`, if any.
pub open spec fn reward_of(e: UnrewardedRelayer, lo: int, hi: int) -> Seq<UnrewardedRelayer> {
    let b = if e.begin >= lo {
        e.begin as int
    } else {
        lo
    };
    let en = if e.end <= hi {
        e.end as int
    } else {
        hi
    };
    if b <= en {
        seq![UnrewardedRelayer { relayer: e.relayer, begin: b as u64, end: en as u64 }]
    } else {
        seq![]
    }
}

/// The entries of `q` cut to `lo..=hi`, in order, leaving out those outside it.
pub open spec fn rewards_in(q: Seq<UnrewardedRelayer>, lo: int, hi: int) -> Seq<
    UnrewardedRelayer,
>
    decreases q.len(),
{
    if q.len() == 0 {
        seq![]
    } else {
        rewards_in(q.drop_last(), lo, hi) + reward_of(q.last(), lo, hi)
    }
}

/// The entries of `q` run in order, without gap or overlap, over exactly the
/// nonces after `confirmed` up to `delivered`.
pub open spec fn queue_covers(q: Seq<UnrewardedRelayer>, confirmed: int, delivered: int) -> bool {
    &&& confirmed <= delivered
    &&& (q.len() == 0 <==> confirmed == delivered)
    &&& q.len() > 0 ==> q[0].begin == confirmed + 1 && q.last().end == delivered
    &&& forall|i: int| 0 <= i < q.len() ==> #[trigger] q[i].begin <= q[i].end
    &&& forall|i: int| 0 < i < q.len() ==> #[trigger] q[i].begin == q[i - 1].end + 1
}

/// `q` once the nonces up to `x` are confirmed: whole entries at or below `x`
/// leave, and an entry that straddles `x` keeps only the nonces above it.
pub open spec fn pruned_queue(q: Seq<UnrewardedRelayer>, x: int) -> Seq<UnrewardedRelayer>
    decreases q.len(),
{
    if q.len() == 0 {
        q
    } else if q[0].end <= x {
        pruned_queue(q.drop_first(), x)
    } else if q[0].begin <= x {
        seq![UnrewardedRelayer { begin: (x + 1) as u64, ..q[0] }] + q.drop_first()
    } else {
        q
    }
}

/// The outcome of receiving messages with nonces `nonces` at a target whose
/// state is `s`: the new last delivered nonce.
pub open spec fn receive_spec(
    s: InboundLaneState,
    lane: LaneId,
    msgs: Seq<Message>,
    max_unrewarded_relayers: MessageNonce,
    max_unconfirmed_messages: MessageNonce,
) -> Result<MessageNonce, ReceiveError> {
    if msgs.len() == 0 {
        Err(ReceiveError::NoMessages)
    } else if exists|i: int| 0 <= i < msgs.len() && #[trigger] msgs[i].lane != lane {
        Err(ReceiveError::WrongLane)
    } else if exists|i: int|
        0 <= i < msgs.len() && #[trigger] msgs[i].nonce != s.last_delivered_nonce + 1 + i {
        Err(ReceiveError::UnexpectedNonce)
    } else if s.relayers@.len() >= max_unrewarded_relayers {
        Err(ReceiveError::TooManyUnrewardedRelayers)
    } else if s.last_delivered_nonce + msgs.len() - s.last_confirmed_nonce
        > max_unconfirmed_messages {
        Err(ReceiveError::TooManyUnconfirmedMessages)
    } else {
        Ok((s.last_delivered_nonce + msgs.len()) as u64)
    }
}

/// Receiving succeeds only for a run that starts right after the last
/// delivered nonce and goes on without gap or repeat: a batch whose first
/// nonce is any other, or that skips or repeats a nonce, is refused. While
/// neither the reward queue nor the unconfirmed messages are at their bound,
/// such a run of this lane's messages is received.
pub proof fn lemma_receive_only_next_nonces(
    s: InboundLaneState,
    lane: LaneId,
    msgs: Seq<Message>,
    max_unrewarded_relayers: MessageNonce,
    max_unconfirmed_messages: MessageNonce,
)
    ensures
        receive_spec(s, lane, msgs, max_unrewarded_relayers, max_unconfirmed_messages) is Ok ==> {
            &&& msgs.len() > 0
            &&& msgs[0].nonce == s.last_delivered_nonce + 1
            &&& forall|i: int| 0 < i < msgs.len() ==> #[trigger] msgs[i].nonce == msgs[i - 1].nonce + 1
        },
        msgs.len() > 0 && msgs[0].nonce != s.last_delivered_nonce + 1 ==> receive_spec(
            s,
            lane,
            msgs,
            max_unrewarded_relayers,
            max_unconfirmed_messages,
        ) is Err,
        ({
            &&& msgs.len() > 0
            &&& forall|i: int| 0 <= i < msgs.len() ==> (#[trigger] msgs[i]).lane == lane
                && msgs[i].nonce == s.last_delivered_nonce + 1 + i
            &&& s.relayers@.len() < max_unrewarded_relayers
            &&& s.last_delivered_nonce + msgs.len() - s.last_confirmed_nonce <= max_unconfirmed_messages
        }) ==> receive_spec(s, lane, msgs, max_unrewarded_relayers, max_unconfirmed_messages)
            == Ok::<MessageNonce, ReceiveError>((s.last_delivered_nonce + msgs.len()) as u64),
{
    if receive_spec(s, lane, msgs, max_unrewarded_relayers, max_unconfirmed_messages) is Ok {
        assert forall|i: int| 0 < i < msgs.len() implies #[trigger] msgs[i].nonce == msgs[i - 1].nonce + 1 by {
            assert(msgs[i].nonce == s.last_delivered_nonce + 1 + i);
            assert(msgs[i - 1].nonce == s.last_delivered_nonce + 1 + (i - 1));
        }
        assert(msgs[0].nonce == s.last_delivered_nonce + 1 + 0);
    }
    if msgs.len() > 0 && msgs[0].nonce != s.last_delivered_nonce + 1 {
        assert(msgs[0].nonce != s.last_delivered_nonce + 1 + 0);
    }
}

impl InboundLaneState {
    /// The reward queue covers exactly the delivered and unconfirmed nonces.
    pub open spec fn wf(&self) -> bool {
        queue_covers(self.relayers@, self.last_confirmed_nonce as int, self.last_delivered_nonce as int)
    }

    /// The state of a lane that received nothing.
    pub fn new() -> (r: InboundLaneState)
        ensures
            r.wf(),
            r.relayers@.len() == 0,
            r.last_confirmed_nonce == 0,
            r.last_delivered_nonce == 0,
    {
        InboundLaneState { relayers: Vec::new(), last_confirmed_nonce: 0, last_delivered_nonce: 0 }
    }
}

proof fn lemma_queue_steps(q: Seq<UnrewardedRelayer>, confirmed: int, delivered: int, j: int, k: int)
    requires
        queue_covers(q, confirmed, delivered),
        0 <= j <= k < q.len(),
    ensures
        q[j].end <= q[k].end,
        q[j].begin <= q[k].begin,
    decreases k - j,
{
    if j < k {
        lemma_queue_steps(q, confirmed, delivered, j, k - 1);
        assert(q[k].begin == q[k - 1].end + 1);
        assert(q[k - 1].begin <= q[k - 1].end);
    }
}

/// Along a well-formed queue the entries' bounds increase, and all lie after
/// the confirmed nonce and at or before the delivered one.
pub proof fn lemma_queue_ends_ordered(q: Seq<UnrewardedRelayer>, confirmed: int, delivered: int, j: int, k: int)
    requires
        queue_covers(q, confirmed, delivered),
        0 <= j <= k < q.len(),
    ensures
        q[j].end <= q[k].end,
        q[j].begin <= q[k].begin,
        confirmed < q[j].begin,
        q[k].end <= delivered,
{
    lemma_queue_steps(q, confirmed, delivered, j, k);
    lemma_queue_steps(q, confirmed, delivered, 0, j);
    lemma_queue_steps(q, confirmed, delivered, k, q.len() - 1);
}

/// How receiving `msgs` delivered by `relayer` changes an inbound lane: as
/// `receive_spec` decides, and on success the last delivered nonce moves to
/// the end of the run, which joins the reward queue under `relayer`; on
/// failure nothing changes.
pub open spec fn receive_outcome(
    old: InboundLane,
    new: InboundLane,
    relayer: AccountId,
    msgs: Seq<Message>,
    max_unrewarded_relayers: MessageNonce,
    max_unconfirmed_messages: MessageNonce,
    r: Result<MessageNonce, ReceiveError>,
) -> bool {
    &&& new.lane == old.lane
    &&& r == receive_spec(old.state, old.lane, msgs, max_unrewarded_relayers, max_unconfirmed_messages)
    &&& (r is Ok ==> msgs[0].nonce == old.state.last_delivered_nonce + 1)
    &&& match r {
        Ok(end) => {
            &&& new.state.last_delivered_nonce == end
            &&& new.state.last_confirmed_nonce == old.state.last_confirmed_nonce
            &&& new.state.relayers@ == old.state.relayers@.push(
                (UnrewardedRelayer {
                    relayer,
                    begin: (old.state.last_delivered_nonce + 1) as u64,
                    end,
                }),
            )
        },
        Err(_) => new == old,
    }
}

/// How the source's latest received nonce `x` changes an inbound lane: a
/// nonce at or below the last confirmed one, or beyond the last delivered
/// one, changes nothing; any other becomes the last confirmed nonce and
/// prunes the reward queue.
pub open spec fn state_update_outcome(old: InboundLane, new: InboundLane, x: MessageNonce, r: Option<MessageNonce>) -> bool {
    &&& new.lane == old.lane
    &&& new.state.last_delivered_nonce == old.state.last_delivered_nonce
    &&& if x <= old.state.last_confirmed_nonce || x > old.state.last_delivered_nonce {
        r is None && new == old
    } else {
        &&& r == Some(x)
        &&& new.state.last_confirmed_nonce == x
        &&& new.state.relayers@ == pruned_queue(old.state.relayers@, x as int)
    }
}

/// How a proved inbound state changes an outbound lane, as `confirm_spec`
/// decides: the confirmed range, the rewards of the relayers that delivered
/// it, and the messages that stay.
pub open spec fn confirm_outcome(
    old: OutboundLane,
    new: OutboundLane,
    proved: InboundLaneState,
    r: Result<Option<DeliveryConfirmation>, ConfirmError>,
) -> bool {
    &&& new.lane == old.lane
    &&& match confirm_spec(old.state, proved.last_delivered_nonce) {
        Err(e) => r == Err::<Option<DeliveryConfirmation>, ConfirmError>(e) && new == old,
        Ok(None) => r == Ok::<Option<DeliveryConfirmation>, ConfirmError>(None) && new == old,
        Ok(Some(s)) => {
            &&& r matches Ok(Some(c)) && c.begin == old.state.latest_received_nonce + 1 && c.end
                == proved.last_delivered_nonce && c.rewards@ == rewards_in(
                proved.relayers@,
                old.state.latest_received_nonce + 1,
                proved.last_delivered_nonce as int,
            )
            &&& new.state == s
            &&& new.messages@ == old.messages@.subrange(
                proved.last_delivered_nonce - old.state.latest_received_nonce,
                old.messages@.len() as int,
            )
        },
    }
}

/// The sending end of a lane, with the messages that are not yet confirmed.
#[derive(Clone, Debug, PartialEq, Eq)]
pub struct OutboundLane {
    pub lane: LaneId,
    pub state: OutboundLaneState,
    pub messages: Vec<Message>,
}

impl OutboundLane {
    /// The stored messages are exactly the unconfirmed ones, in nonce order.
    pub open spec fn wf(&self) -> bool {
        &&& self.state.wf()
        &&& self.messages@.len() == self.state.latest_generated_nonce
            - self.state.latest_received_nonce
        &&& forall|i: int|
            0 <= i < self.messages@.len() ==> (#[trigger] self.messages@[i]).nonce
                == self.state.latest_received_nonce + 1 + i && self.messages@[i].lane == self.lane
    }

    /// A lane on which nothing was sent.
    pub fn new(lane: LaneId) -> (r: OutboundLane)
        ensures
            r.wf(),
            r.lane == lane,
            r.state.latest_generated_nonce == 0,
            r.state.latest_received_nonce == 0,
            r.messages@.len() == 0,
    {
        OutboundLane { lane, state: OutboundLaneState::new(), messages: Vec::new() }
    }

    /// Sends a message: it gets the nonce after the latest generated one. With
    /// `max_pending` unconfirmed messages already on the lane nothing changes.
    pub fn send_message(&mut self, payload: Vec<u8>, fee: Balance, max_pending: MessageNonce) -> (r:
        Result<MessageNonce, SendError>)
        requires
            old(self).wf(),
        ensures
            final(self).wf(),
            match send_spec(old(self).state, max_pending) {
                Ok(s) => {
                    &&& r == Ok::<MessageNonce, SendError>(s.latest_generated_nonce)
                    &&& final(self).state == s
                    &&& final(self).lane == old(self).lane
                    &&& final(self).messages@ == old(self).messages@.push(
                        (Message {
                            lane: old(self).lane,
                            nonce: s.latest_generated_nonce,
                            payload,
                            fee,
                        }),
                    )
                },
                Err(e) => r == Err::<MessageNonce, SendError>(e) && *final(self) == *old(self),
            },
    {
        if self.state.latest_generated_nonce - self.state.latest_received_nonce >= max_pending {
            return Err(SendError::CapacityExhausted);
        }
        if self.state.latest_generated_nonce == u64::MAX {
            return Err(SendError::NonceOverflow);
        }
        let nonce = self.state.latest_generated_nonce + 1;
        self.messages.push(Message { lane: self.lane, nonce, payload, fee });
        self.state.latest_generated_nonce = nonce;
        Ok(nonce)
    }

    /// Applies a proved state of the target's inbound lane: the nonces that it
    /// delivered beyond the latest received one are confirmed, their messages
    /// leave the lane, and the relayers that delivered them are returned with
    /// the part of the newly confirmed nonces that each delivered.
    pub fn confirm_delivery(&mut self, proved: &InboundLaneState) -> (r: Result<
        Option<DeliveryConfirmation>,
        ConfirmError,
    >)
        requires
            old(self).wf(),
            proved.wf(),
        ensures
            final(self).wf(),
            confirm_outcome(*old(self), *final(self), *proved, r),
    {
        let delivered = proved.last_delivered_nonce;
        if delivered > self.state.latest_generated_nonce {
            return Err(ConfirmError::DeliveredNonceNotGenerated);
        }
        if delivered <= self.state.latest_received_nonce {
            return Ok(None);
        }
        let begin = self.state.latest_received_nonce + 1;
        let mut rewards: Vec<UnrewardedRelayer> = Vec::new();
        let mut i: usize = 0;
        while i < proved.relayers.len()
            invariant
                0 <= i <= proved.relayers@.len(),
                *self == *old(self),
                self.wf(),
                delivered == proved.last_delivered_nonce,
                self.state.latest_received_nonce < delivered <= self.state.latest_generated_nonce,
                begin == self.state.latest_received_nonce + 1,
                rewards@ == rewards_in(proved.relayers@.subrange(0, i as int), begin as int, delivered as int),
            decreases proved.relayers@.len() - i,
        {
            let e = proved.relayers[i];
            let b = if e.begin >= begin {
                e.begin
            } else {
                begin
            };
            let en = if e.end <= delivered {
                e.end
            } else {
                delivered
            };
            proof {
                let q = proved.relayers@.subrange(0, i + 1);
                assert(q.drop_last() =~= proved.relayers@.subrange(0, i as int));
                assert(q.last() == e);
            }
            if b <= en {
                rewards.push(UnrewardedRelayer { relayer: e.relayer, begin: b, end: en });
            }
            proof {
                let q = proved.relayers@.subrange(0, i + 1);
                if b <= en {
                    assert(rewards@ =~= rewards_in(q, begin as int, delivered as int));
                } else {
                    assert(rewards@ =~= rewards_in(q, begin as int, delivered as int));
                }
            }
            i = i + 1;
        }
        proof {
            assert(proved.relayers@.subrange(0, proved.relayers@.len() as int) =~= proved.relayers@);
        }
        let ghost old_messages = self.messages@;
        let ghost received = self.state.latest_received_nonce;
        let stored = self.messages.len();
        assert(delivered - received <= stored);
        let confirmed = (delivered - self.state.latest_received_nonce) as usize;
        let rest = self.messages.split_off(confirmed);
        self.messages = rest;
        self.state.latest_received_nonce = delivered;
        proof {
            assert forall|i: int| 0 <= i < self.messages@.len() implies (#[trigger] self.messages@[i]).nonce
                == self.state.latest_received_nonce + 1 + i && self.messages@[i].lane == self.lane by {
                assert(self.messages@[i] == old_messages[i + (delivered - received)]);
            }
        }
        Ok(Some(DeliveryConfirmation { begin, end: delivered, rewards }))
    }
}

/// The receiving end of a lane.
#[derive(Clone, Debug, PartialEq, Eq)]
pub struct InboundLane {
    pub lane: LaneId,
    pub state: InboundLaneState,
}

impl InboundLane {
    pub open spec fn wf(&self) -> bool {
        self.state.wf()
    }

    /// A lane that received nothing.
    pub fn new(lane: LaneId) -> (r: InboundLane)
        ensures
            r.wf(),
            r.lane == lane,
            r.state.relayers@.len() == 0,
            r.state.last_confirmed_nonce == 0,
            r.state.last_delivered_nonce == 0,
    {
        InboundLane { lane, state: InboundLaneState::new() }
    }

    /// Receives proved messages delivered by `relayer`. They are taken only as a
    /// non-empty run of this lane's nonces that starts right after the last
    /// delivered one; the last delivered nonce then moves to the end of the
    /// run, and the run joins the reward queue under `relayer`.
    pub fn receive_messages(
        &mut self,
        relayer: AccountId,
        messages: &Vec<Message>,
        max_unrewarded_relayers: MessageNonce,
        max_unconfirmed_messages: MessageNonce,
    ) -> (r: Result<MessageNonce, ReceiveError>)
        requires
            old(self).wf(),
        ensures
            final(self).wf(),
            final(self).lane == old(self).lane,
            receive_outcome(
                *old(self),
                *final(self),
                relayer,
                messages@,
                max_unrewarded_relayers,
                max_unconfirmed_messages,
                r,
            ),
    {
        let n = messages.len();
        if n == 0 {
            return Err(ReceiveError::NoMessages);
        }
        let mut i: usize = 0;
        while i < n
            invariant
                n == messages@.len(),
                0 <= i <= n,
                *self == *old(self),
                self.wf(),
                forall|j: int| 0 <= j < i ==> (#[trigger] messages@[j]).lane == self.lane,
            decreases n - i,
        {
            if !ids_equal(&messages[i].lane, &self.lane) {
                return Err(ReceiveError::WrongLane);
            }
            i = i + 1;
        }
        let delivered = self.state.last_delivered_nonce;
        let mut i: usize = 0;
        while i < n
            invariant
                n == messages@.len(),
                *self == *old(self),
                self.wf(),
                delivered == self.state.last_delivered_nonce,
                0 <= i <= n,
                forall|j: int| 0 <= j < n ==> (#[trigger] messages@[j]).lane == self.lane,
                forall|j: int| 0 <= j < i ==> (#[trigger] messages@[j]).nonce == delivered + 1 + j,
            decreases n - i,
        {
            if messages[i].nonce as u128 != delivered as u128 + 1 + i as u128 {
                return Err(ReceiveError::UnexpectedNonce);
            }
            i = i + 1;
        }
        assert(messages@[n - 1].nonce == delivered + n);
        let end = messages[n - 1].nonce;
        if self.state.relayers.len() as u64 >= max_unrewarded_relayers {
            return Err(ReceiveError::TooManyUnrewardedRelayers);
        }
        if end - self.state.last_confirmed_nonce > max_unconfirmed_messages {
            return Err(ReceiveError::TooManyUnconfirmedMessages);
        }
        let ghost q0 = self.state.relayers@;
        self.state.relayers.push(UnrewardedRelayer { relayer, begin: delivered + 1, end });
        self.state.last_delivered_nonce = end;
        proof {
            let q = self.state.relayers@;
            assert(q.len() == q0.len() + 1);
            assert forall|i: int| 0 <= i < q.len() implies #[trigger] q[i].begin <= q[i].end by {
                if i < q0.len() {
                    assert(q[i] == q0[i]);
                }
            }
            assert forall|i: int| 0 < i < q.len() implies #[trigger] q[i].begin == q[i - 1].end + 1 by {
                if i < q0.len() {
                    assert(q[i] == q0[i]);
                    assert(q[i - 1] == q0[i - 1]);
                } else {
                    assert(q[i - 1] == q0.last());
                }
            }
            if q0.len() > 0 {
                assert(q[0] == q0[0]);
            }
        }
        Ok(end)
    }

    /// Applies the source's latest received nonce, as a later messages proof
    /// reveals it: the nonces up to it are confirmed and leave the reward
    /// queue. A nonce at or below the last confirmed one, or beyond the last
    /// delivered one, changes nothing and gives `None`.
    #[verifier::rlimit(60)]
    pub fn receive_state_update(&mut self, latest_received_nonce: MessageNonce) -> (r: Option<
        MessageNonce,
    >)
        requires
            old(self).wf(),
        ensures
            final(self).wf(),
            final(self).lane == old(self).lane,
            state_update_outcome(*old(self), *final(self), latest_received_nonce, r),
    {
        let x = latest_received_nonce;
        if x <= self.state.last_confirmed_nonce || x > self.state.last_delivered_nonce {
            return None;
        }
        let ghost q = self.state.relayers@;
        let ghost confirmed = self.state.last_confirmed_nonce as int;
        let ghost delivered = self.state.last_delivered_nonce as int;
        let len = self.state.relayers.len();
        assert(q.subrange(0, len as int) =~= q);
        let mut i: usize = 0;
        while i < len && self.state.relayers[i].end <= x
            invariant
                len == q.len(),
                self.state.relayers@ == q,
                0 <= i <= len,
                forall|j: int| 0 <= j < i ==> (#[trigger] q[j]).end <= x,
                pruned_queue(q, x as int) == pruned_queue(q.subrange(i as int, len as int), x as int),
            decreases len - i,
        {
            proof {
                let t = q.subrange(i as int, len as int);
                assert(t.drop_first() =~= q.subrange(i + 1, len as int));
                assert(t[0] == q[i as int]);
            }
            i = i + 1;
        }
        let mut tail = self.state.relayers.split_off(i);
        let ghost t = tail@;
        assert(t =~= q.subrange(i as int, len as int));
        if i < len {
            let first = tail.remove(0);
            let begin = if first.begin <= x {
                x + 1
            } else {
                first.begin
            };
            tail.insert(0, UnrewardedRelayer { relayer: first.relayer, begin, end: first.end });
            proof {
                lemma_queue_ends_ordered(q, confirmed, delivered, i as int, len - 1);
                if i > 0 {
                    assert(q[i as int].begin == q[i - 1].end + 1);
                    assert(q[i - 1].end <= x);
                }
                assert(begin == x + 1);
                assert(t.drop_first() =~= tail@.drop_first());
                if first.begin <= x {
                    assert(tail@ =~= seq![UnrewardedRelayer { begin: (x + 1) as u64, ..t[0] }] + t.drop_first());
                } else {
                    assert(tail@ =~= t);
                }
                let nq = tail@;
                assert forall|k: int| 0 <= k < nq.len() implies #[trigger] nq[k].begin <= nq[k].end by {
                    if k > 0 {
                        assert(nq[k] == q[i + k]);
                    }
                }
                assert forall|k: int| 0 < k < nq.len() implies #[trigger] nq[k].begin == nq[k - 1].end + 1 by {
                    assert(nq[k] == q[i + k]);
                    assert(q[i + k].begin == q[i + k - 1].end + 1);
                    if k > 1 {
                        assert(nq[k - 1] == q[i + k - 1]);
                    }
                }
                assert(nq.last().end == q.last().end);
            }
        } else {
            proof {
                if len > 0 {
                    assert(q[len - 1].end <= x);
                }
                assert(pruned_queue(t, x as int) == t);
            }
        }
        self.state.relayers = tail;
        self.state.last_confirmed_nonce = x;
        Some(x)
    }
}

/// Both ends of one lane, as far as their nonces go: the source's outbound
/// state and the target's confirmed and delivered nonces.
#[derive(Clone, Copy, Debug, PartialEq, Eq, Structural)]
pub struct LaneSnapshot {
    pub source: OutboundLaneState,
    pub last_confirmed_nonce: MessageNonce,
    pub last_delivered_nonce: MessageNonce,
}

/// One transition of a lane.
#[derive(Clone, Copy, Debug, PartialEq, Eq)]
pub enum LaneEvent {
    /// The source sends a message.
    Send { max_pending: MessageNonce },
    /// The target receives proved messages, with this outcome. A messages
    /// proof can only show messages that the source generated; a run that
    /// ends beyond them is refused.
    Receive { outcome: Result<MessageNonce, ReceiveError> },
    /// The source applies a proof that the target delivered every nonce up to
    /// `delivered`; a proof shows a past or current target state.
    Confirm { delivered: MessageNonce },
    /// The target applies the source's latest received nonce `received`, as a
    /// proof of a past or current source state shows it.
    Prune { received: MessageNonce },
}

/// The nonces as both ends of a lane start out.
pub open spec fn lane_start() -> LaneSnapshot {
    LaneSnapshot {
        source: OutboundLaneState { latest_generated_nonce: 0, latest_received_nonce: 0 },
        last_confirmed_nonce: 0,
        last_delivered_nonce: 0,
    }
}

/// The effect of one transition, as the transitions' own contracts give it.
pub open spec fn lane_step(s: LaneSnapshot, e: LaneEvent) -> LaneSnapshot {
    match e {
        LaneEvent::Send { max_pending } => match send_spec(s.source, max_pending) {
            Ok(o) => LaneSnapshot { source: o, ..s },
            Err(_) => s,
        },
        LaneEvent::Receive { outcome } => match outcome {
            Ok(end) => if s.last_delivered_nonce < end && end <= s.source.latest_generated_nonce {
                LaneSnapshot { last_delivered_nonce: end, ..s }
            } else {
                s
            },
            Err(_) => s,
        },
        LaneEvent::Confirm { delivered } => if delivered <= s.last_delivered_nonce {
            match confirm_spec(s.source, delivered) {
                Ok(Some(o)) => LaneSnapshot { source: o, ..s },
                _ => s,
            }
        } else {
            s
        },
        LaneEvent::Prune { received } => {
            if received > s.source.latest_received_nonce || received <= s.last_confirmed_nonce
                || received > s.last_delivered_nonce {
                s
            } else {
                LaneSnapshot { last_confirmed_nonce: received, ..s }
            }
        },
    }
}

/// The nonces of a source lane state and a target lane state together.
pub open spec fn lane_snapshot(source: OutboundLaneState, target: InboundLaneState) -> LaneSnapshot {
    LaneSnapshot {
        source,
        last_confirmed_nonce: target.last_confirmed_nonce,
        last_delivered_nonce: target.last_delivered_nonce,
    }
}

/// Sending a message on the source lane is a `Send` step.
pub proof fn lemma_send_is_lane_step(
    old: OutboundLane,
    new: OutboundLane,
    max_pending: MessageNonce,
    target: InboundLaneState,
)
    requires
        new.state == match send_spec(old.state, max_pending) {
            Ok(s) => s,
            Err(_) => old.state,
        },
    ensures
        lane_snapshot(new.state, target) == lane_step(
            lane_snapshot(old.state, target),
            LaneEvent::Send { max_pending },
        ),
{
}

/// Receiving messages that the source generated is a `Receive` step with
/// the outcome of the receipt.
pub proof fn lemma_receive_is_lane_step(
    old: InboundLane,
    new: InboundLane,
    relayer: AccountId,
    msgs: Seq<Message>,
    max_unrewarded_relayers: MessageNonce,
    max_unconfirmed_messages: MessageNonce,
    r: Result<MessageNonce, ReceiveError>,
    source: OutboundLaneState,
)
    requires
        receive_outcome(old, new, relayer, msgs, max_unrewarded_relayers, max_unconfirmed_messages, r),
        forall|i: int| 0 <= i < msgs.len() ==> (#[trigger] msgs[i]).nonce <= source.latest_generated_nonce,
    ensures
        lane_snapshot(source, new.state) == lane_step(
            lane_snapshot(source, old.state),
            LaneEvent::Receive { outcome: r },
        ),
{
    if r is Ok {
        let n = msgs.len() as int;
        if msgs[n - 1].nonce != old.state.last_delivered_nonce + 1 + (n - 1) {
            assert(exists|i: int| 0 <= i < msgs.len() && #[trigger] msgs[i].nonce != old.state.last_delivered_nonce + 1 + i);
        }
        assert(msgs[n - 1].nonce <= source.latest_generated_nonce);
    }
}

/// Confirming deliveries with a proof of a past or current target state is a
/// `Confirm` step.
pub proof fn lemma_confirm_is_lane_step(
    old: OutboundLane,
    new: OutboundLane,
    proved: InboundLaneState,
    r: Result<Option<DeliveryConfirmation>, ConfirmError>,
    target: InboundLaneState,
)
    requires
        confirm_outcome(old, new, proved, r),
        proved.last_delivered_nonce <= target.last_delivered_nonce,
    ensures
        lane_snapshot(new.state, target) == lane_step(
            lane_snapshot(old.state, target),
            LaneEvent::Confirm { delivered: proved.last_delivered_nonce },
        ),
{
}

/// Applying the latest received nonce of a past or current source state at
/// the target is a `Prune` step.
pub proof fn lemma_prune_is_lane_step(
    old: InboundLane,
    new: InboundLane,
    received: MessageNonce,
    r: Option<MessageNonce>,
    source: OutboundLaneState,
)
    requires
        state_update_outcome(old, new, received, r),
        received <= source.latest_received_nonce,
    ensures
        lane_snapshot(source, new.state) == lane_step(
            lane_snapshot(source, old.state),
            LaneEvent::Prune { received },
        ),
{
}

/// The nonces after a run of transitions from the start.
pub open spec fn lane_run(events: Seq<LaneEvent>) -> LaneSnapshot
    decreases events.len(),
{
    if events.len() == 0 {
        lane_start()
    } else {
        lane_step(lane_run(events.drop_last()), events.last())
    }
}

/// The nonces that the successful sends of a run were given, in order.
pub open spec fn sent_nonces(events: Seq<LaneEvent>) -> Seq<MessageNonce>
    decreases events.len(),
{
    if events.len() == 0 {
        seq![]
    } else {
        let before = sent_nonces(events.drop_last());
        match events.last() {
            LaneEvent::Send { max_pending } => match send_spec(
                lane_run(events.drop_last()).source,
                max_pending,
            ) {
                Ok(o) => before.push(o.latest_generated_nonce),
                Err(_) => before,
            },
            _ => before,
        }
    }
}

/// The order of nonces along a lane.
pub open spec fn lane_ordered(s: LaneSnapshot) -> bool {
    &&& s.last_confirmed_nonce <= s.source.latest_received_nonce
    &&& s.source.latest_received_nonce <= s.last_delivered_nonce
    &&& s.last_delivered_nonce <= s.source.latest_generated_nonce
}

/// Every transition keeps `last_confirmed <= latest_received <= last_delivered
/// <= latest_generated`.
pub proof fn lemma_lane_step_keeps_order(s: LaneSnapshot, e: LaneEvent)
    requires
        lane_ordered(s),
    ensures
        lane_ordered(lane_step(s, e)),
{
}

/// In every state that a lane reaches, the last confirmed nonce is at most the
/// last delivered one, which is at most the latest generated one.
pub proof fn lemma_lane_order_reachable(events: Seq<LaneEvent>)
    ensures
        lane_ordered(lane_run(events)),
        lane_run(events).last_confirmed_nonce <= lane_run(events).last_delivered_nonce,
        lane_run(events).last_delivered_nonce <= lane_run(events).source.latest_generated_nonce,
    decreases events.len(),
{
    if events.len() > 0 {
        lemma_lane_order_reachable(events.drop_last());
        lemma_lane_step_keeps_order(lane_run(events.drop_last()), events.last());
    }
}

/// Whatever transitions a lane goes through, its sends are given the nonces
/// `1, 2, ..., N` in order, without gap or repeat, and `N` is the latest
/// generated nonce.
pub proof fn lemma_sent_nonces_gapless(events: Seq<LaneEvent>)
    ensures
        sent_nonces(events).len() == lane_run(events).source.latest_generated_nonce,
        forall|i: int| 0 <= i < sent_nonces(events).len() ==> #[trigger] sent_nonces(events)[i] == i + 1,
    decreases events.len(),
{
    if events.len() > 0 {
        lemma_sent_nonces_gapless(events.drop_last());
    }
}

} // verus!
