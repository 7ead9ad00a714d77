//! The decisions of the finality sync pipeline, which keeps the target chain's
//! view of the source chain's finalized headers current. The pipeline polls
//! both chains, decides which header's finality proof to submit, and learns
//! how each submission ended; fetching and submitting proofs is left to the
//! caller, which performs the returned action and reports the next event.

use crate::proofs::HeaderId;
use vstd::prelude::*;

verus! {

/// Where the pipeline stands.
#[derive(Clone, Copy, Debug, PartialEq, Eq)]
pub enum FinalitySyncState {
    /// No proof is needed, or none is known to be needed yet.
    Idle,
    /// A proof is required and none is in flight. A poll that finds a proof
    /// required issues its submission in the same step, so the pipeline stays
    /// here only after a failed submission, until the next poll selects the
    /// freshest header.
    ProofRequired,
    /// A finality proof for this header is submitted and not yet settled.
    Submitting { header: HeaderId },
}

/// What a poll of both chains found.
#[derive(Clone, Copy, Debug, PartialEq, Eq)]
pub struct FinalityPoll {
    /// The best finalized header of the source chain.
    pub source_best: HeaderId,
    /// The number of the best source header that the target knows as finalized.
    pub target_best_number: u64,
    /// The oldest source header that changes the finality authority set and
    /// is newer than the target's best, if there is one.
    pub mandatory: Option<HeaderId>,
}

/// What happened since the last step.
#[derive(Clone, Copy, Debug, PartialEq, Eq)]
pub enum FinalityEvent {
    Polled(FinalityPoll),
    SubmissionSucceeded,
    SubmissionFailed,
}

/// What the caller does next.
#[derive(Clone, Copy, Debug, PartialEq, Eq)]
pub enum FinalityAction {
    /// Nothing until the next poll.
    Wait,
    /// Fetch a finality proof for this header and submit it to the target.
    SubmitFinalityProof(HeaderId),
}

/// The header whose proof a poll calls for: a mandatory header first, since
/// the target cannot check later proofs without the authority set it brings;
/// else, unless only mandatory headers are relayed, the source's best
/// finalized header, which also attests all its ancestors.
pub open spec fn select_header_spec(poll: FinalityPoll, only_mandatory_headers: bool) -> Option<HeaderId> {
    match poll.mandatory {
        Some(m) if m.number > poll.target_best_number => Some(m),
        _ => if !only_mandatory_headers && poll.source_best.number > poll.target_best_number {
            Some(poll.source_best)
        } else {
            None
        },
    }
}

/// The header whose proof a poll calls for, if any.
pub fn select_header(poll: &FinalityPoll, only_mandatory_headers: bool) -> (r: Option<HeaderId>)
    ensures
        r == select_header_spec(*poll, only_mandatory_headers),
{
    match poll.mandatory {
        Some(m) => {
            if m.number > poll.target_best_number {
                return Some(m);
            }
        },
        None => {},
    }
    if !only_mandatory_headers && poll.source_best.number > poll.target_best_number {
        Some(poll.source_best)
    } else {
        None
    }
}

/// The state and action that follow a poll with nothing in flight.
pub open spec fn decide_on_poll(poll: FinalityPoll, only_mandatory_headers: bool) -> (FinalitySyncState, FinalityAction) {
    match select_header_spec(poll, only_mandatory_headers) {
        Some(h) => (FinalitySyncState::Submitting { header: h }, FinalityAction::SubmitFinalityProof(h)),
        None => (FinalitySyncState::Idle, FinalityAction::Wait),
    }
}

/// One step of the pipeline. A poll with nothing in flight submits the
/// selected header, if any. While a submission is in flight, a poll waits
/// until the target knows the submitted header, and then decides afresh. A
/// successful submission returns to idle; a failed one requires a new proof,
/// which the next poll selects from what is current then, never the stale
/// header.
pub open spec fn finality_step(
    state: FinalitySyncState,
    event: FinalityEvent,
    only_mandatory_headers: bool,
) -> (FinalitySyncState, FinalityAction) {
    match event {
        FinalityEvent::Polled(poll) => match state {
            FinalitySyncState::Submitting { header } => if poll.target_best_number >= header.number {
                decide_on_poll(poll, only_mandatory_headers)
            } else {
                (state, FinalityAction::Wait)
            },
            _ => decide_on_poll(poll, only_mandatory_headers),
        },
        FinalityEvent::SubmissionSucceeded => match state {
            FinalitySyncState::Submitting { .. } => (FinalitySyncState::Idle, FinalityAction::Wait),
            _ => (state, FinalityAction::Wait),
        },
        FinalityEvent::SubmissionFailed => match state {
            FinalitySyncState::Submitting { .. } => (FinalitySyncState::ProofRequired, FinalityAction::Wait),
            _ => (state, FinalityAction::Wait),
        },
    }
}

/// The finality sync pipeline of one (source, target) chain pair.
#[derive(Clone, Copy, Debug, PartialEq, Eq)]
pub struct FinalitySync {
    pub state: FinalitySyncState,
    /// Relay only headers that change the authority set.
    pub only_mandatory_headers: bool,
}

impl FinalitySync {
    /// A pipeline with nothing in flight.
    pub fn new(only_mandatory_headers: bool) -> (r: FinalitySync)
        ensures
            r.state == FinalitySyncState::Idle,
            r.only_mandatory_headers == only_mandatory_headers,
    {
        FinalitySync { state: FinalitySyncState::Idle, only_mandatory_headers }
    }

    /// Takes one event and returns what to do next.
    pub fn on_event(&mut self, event: FinalityEvent) -> (r: FinalityAction)
        ensures
            final(self).only_mandatory_headers == old(self).only_mandatory_headers,
            (final(self).state, r) == finality_step(old(self).state, event, old(self).only_mandatory_headers),
    {
        let (state, action) = match event {
            FinalityEvent::Polled(poll) => match self.state {
                FinalitySyncState::Submitting { header } => {
                    if poll.target_best_number >= header.number {
                        self.decide(&poll)
                    } else {
                        (self.state, FinalityAction::Wait)
                    }
                },
                _ => self.decide(&poll),
            },
            FinalityEvent::SubmissionSucceeded => match self.state {
                FinalitySyncState::Submitting { .. } => (FinalitySyncState::Idle, FinalityAction::Wait),
                _ => (self.state, FinalityAction::Wait),
            },
            FinalityEvent::SubmissionFailed => match self.state {
                FinalitySyncState::Submitting { .. } => (FinalitySyncState::ProofRequired, FinalityAction::Wait),
                _ => (self.state, FinalityAction::Wait),
            },
        };
        self.state = state;
        action
    }

    fn decide(&self, poll: &FinalityPoll) -> (r: (FinalitySyncState, FinalityAction))
        ensures
            r == decide_on_poll(*poll, self.only_mandatory_headers),
    {
        match select_header(poll, self.only_mandatory_headers) {
            Some(h) => (FinalitySyncState::Submitting { header: h }, FinalityAction::SubmitFinalityProof(h)),
            None => (FinalitySyncState::Idle, FinalityAction::Wait),
        }
    }
}

/// A header that changes the authority set is always relayed: whenever the
/// pipeline has nothing in flight, a poll that finds such a header newer than
/// the target's best submits its proof, whether or not only mandatory headers
/// are relayed and whatever else is pending.
pub proof fn lemma_mandatory_header_submitted(
    state: FinalitySyncState,
    poll: FinalityPoll,
    mandatory: HeaderId,
    only_mandatory_headers: bool,
)
    requires
        !(state is Submitting),
        poll.mandatory == Some(mandatory),
        mandatory.number > poll.target_best_number,
    ensures
        finality_step(state, FinalityEvent::Polled(poll), only_mandatory_headers) == (
            FinalitySyncState::Submitting { header: mandatory },
            FinalityAction::SubmitFinalityProof(mandatory),
        ),
{
}

/// The pipeline never submits a superseded header: every header it submits
/// is newer than the target's best, and a header that changes no authority
/// set is the source's best finalized one.
pub proof fn lemma_submits_only_fresh_headers(
    state: FinalitySyncState,
    poll: FinalityPoll,
    only_mandatory_headers: bool,
    header: HeaderId,
)
    requires
        finality_step(state, FinalityEvent::Polled(poll), only_mandatory_headers).1
            == FinalityAction::SubmitFinalityProof(header),
    ensures
        header.number > poll.target_best_number,
        poll.mandatory != Some(header) ==> header == poll.source_best && !only_mandatory_headers,
{
}

} // verus!
