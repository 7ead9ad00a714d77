use bridge_relay::{
    select_header, FinalityAction, FinalityEvent, FinalityPoll, FinalitySync, FinalitySyncState,
    HeaderId, RelayHeaders, RelayHeadersBridge,
};

fn header(number: u64) -> HeaderId {
    HeaderId { number, hash: [number as u8; 32] }
}

#[test]
fn best_header_is_relayed_when_target_lags() {
    let mut sync = FinalitySync::new(false);
    let poll = FinalityPoll { source_best: header(20), target_best_number: 10, mandatory: None };
    assert_eq!(sync.on_event(FinalityEvent::Polled(poll)), FinalityAction::SubmitFinalityProof(header(20)));
    // still in flight: wait
    let later = FinalityPoll { source_best: header(25), target_best_number: 10, mandatory: None };
    assert_eq!(sync.on_event(FinalityEvent::Polled(later)), FinalityAction::Wait);
    assert_eq!(sync.on_event(FinalityEvent::SubmissionSucceeded), FinalityAction::Wait);
    assert_eq!(sync.state, FinalitySyncState::Idle);
}

#[test]
fn failed_submission_retries_with_fresh_header() {
    let mut sync = FinalitySync::new(false);
    let poll = FinalityPoll { source_best: header(20), target_best_number: 10, mandatory: None };
    sync.on_event(FinalityEvent::Polled(poll));
    assert_eq!(sync.on_event(FinalityEvent::SubmissionFailed), FinalityAction::Wait);
    assert_eq!(sync.state, FinalitySyncState::ProofRequired);
    let fresh = FinalityPoll { source_best: header(30), target_best_number: 10, mandatory: None };
    assert_eq!(sync.on_event(FinalityEvent::Polled(fresh)), FinalityAction::SubmitFinalityProof(header(30)));
}

#[test]
fn nothing_relayed_when_target_is_current() {
    let mut sync = FinalitySync::new(false);
    let poll = FinalityPoll { source_best: header(10), target_best_number: 10, mandatory: None };
    assert_eq!(sync.on_event(FinalityEvent::Polled(poll)), FinalityAction::Wait);
    assert_eq!(sync.state, FinalitySyncState::Idle);
}

#[test]
fn only_mandatory_mode_skips_ordinary_headers() {
    let poll = FinalityPoll { source_best: header(20), target_best_number: 10, mandatory: None };
    assert_eq!(select_header(&poll, true), None);
    assert_eq!(select_header(&poll, false), Some(header(20)));
    let stale = FinalityPoll { source_best: header(20), target_best_number: 10, mandatory: Some(header(9)) };
    assert_eq!(select_header(&stale, true), None);
}

#[test]
fn relay_headers_settings_build_idle_pipeline() {
    let settings = RelayHeaders { bridge: RelayHeadersBridge::PeerToSubstrate, only_mandatory_headers: true };
    let sync = settings.finality_pipeline();
    assert_eq!(sync.state, FinalitySyncState::Idle);
    assert!(sync.only_mandatory_headers);
    let (source, target) = settings.chains();
    assert_eq!(source.tx_extra_bytes, 103);
    assert_eq!(target.tx_extra_bytes, 104);
}
