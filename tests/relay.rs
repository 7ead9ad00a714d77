use bridge_relay::{
    decide_confirmation, decide_delivery, ConfirmationDecision, DeliveryDecision, DeliveryLimits,
    LaneScan, RelayStrategy,
};

fn scan() -> LaneScan {
    LaneScan {
        source_latest_generated: 10,
        source_generated_at_target_known: 8,
        source_latest_received: 2,
        target_last_delivered: 4,
        target_delivered_at_source_known: 3,
        competing_delivery_in_flight: false,
    }
}

const LIMITS: DeliveryLimits = DeliveryLimits { max_messages_per_proof: 3, max_weight_per_proof: 100 };

#[test]
fn delivers_from_first_undelivered_within_limits() {
    let w = vec![10, 20, 30, 40];
    assert_eq!(decide_delivery(&scan(), None, &w, &LIMITS, RelayStrategy::Altruistic), DeliveryDecision::Deliver { begin: 5, end: 7 });
    let heavy = vec![60, 50, 1];
    assert_eq!(decide_delivery(&scan(), None, &heavy, &LIMITS, RelayStrategy::Altruistic), DeliveryDecision::Deliver { begin: 5, end: 5 });
    let oversized = vec![500, 1];
    assert_eq!(decide_delivery(&scan(), None, &oversized, &LIMITS, RelayStrategy::Altruistic), DeliveryDecision::Deliver { begin: 5, end: 5 });
}

#[test]
fn delivery_stops_at_verifiable_nonce() {
    let w = vec![1, 1, 1, 1];
    assert_eq!(decide_delivery(&scan(), Some(6), &w, &LIMITS, RelayStrategy::Altruistic), DeliveryDecision::Deliver { begin: 7, end: 8 });
    assert_eq!(decide_delivery(&scan(), Some(8), &w, &LIMITS, RelayStrategy::Altruistic), DeliveryDecision::WaitForFinality);
    assert_eq!(decide_delivery(&scan(), Some(10), &w, &LIMITS, RelayStrategy::Altruistic), DeliveryDecision::Nothing);
}

#[test]
fn race_aware_strategy_yields_to_competitor() {
    let mut s = scan();
    s.competing_delivery_in_flight = true;
    let w = vec![1, 1];
    assert_eq!(decide_delivery(&s, None, &w, &LIMITS, RelayStrategy::RaceAware), DeliveryDecision::Nothing);
    assert_eq!(decide_delivery(&s, None, &w, &LIMITS, RelayStrategy::Altruistic), DeliveryDecision::Deliver { begin: 5, end: 6 });
    assert_eq!(decide_delivery(&s, None, &vec![], &LIMITS, RelayStrategy::Altruistic), DeliveryDecision::Nothing);
}

#[test]
fn confirmation_decisions() {
    assert_eq!(decide_confirmation(&scan(), false), ConfirmationDecision::Confirm);
    assert_eq!(decide_confirmation(&scan(), true), ConfirmationDecision::Nothing);
    let mut s = scan();
    s.target_delivered_at_source_known = 2;
    assert_eq!(decide_confirmation(&s, false), ConfirmationDecision::WaitForFinality);
    s.source_latest_received = 4;
    assert_eq!(decide_confirmation(&s, false), ConfirmationDecision::Nothing);
}
