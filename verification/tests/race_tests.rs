//! Tests of the attempt stage machine and the race decision.

use pam_exec::protocol::Resolution;
use pam_exec::race::{advance, decide, AttemptEvent, RaceState, Stage};

#[test]
fn stage_machine_happy_path() {
    let s = advance(&Stage::Dispatched, &AttemptEvent::Start);
    assert_eq!(s, Stage::Connecting);
    let s = advance(&s, &AttemptEvent::Connected);
    assert_eq!(s, Stage::Sending);
    let s = advance(&s, &AttemptEvent::Sent);
    assert_eq!(s, Stage::AwaitingResponse);
    let s = advance(&s, &AttemptEvent::Received);
    assert_eq!(s, Stage::Decrypting);
    let s = advance(&s, &AttemptEvent::Outcome(Resolution::Accepted));
    assert_eq!(s, Stage::Resolved(Resolution::Accepted));
}

#[test]
fn stage_machine_soft_failure_resolves_failed() {
    for stage in [
        Stage::Dispatched,
        Stage::Connecting,
        Stage::Sending,
        Stage::AwaitingResponse,
        Stage::Decrypting,
    ] {
        assert_eq!(
            advance(&stage, &AttemptEvent::SoftFailure),
            Stage::Resolved(Resolution::Failed)
        );
    }
}

#[test]
fn stage_machine_resolved_is_terminal() {
    for outcome in [Resolution::Accepted, Resolution::Rejected, Resolution::Failed] {
        for event in [
            AttemptEvent::Start,
            AttemptEvent::Connected,
            AttemptEvent::Sent,
            AttemptEvent::Received,
            AttemptEvent::Outcome(Resolution::Accepted),
            AttemptEvent::SoftFailure,
        ] {
            assert_eq!(advance(&Stage::Resolved(outcome), &event), Stage::Resolved(outcome));
        }
    }
}

#[test]
fn stage_machine_ignores_out_of_order_events() {
    assert_eq!(advance(&Stage::Dispatched, &AttemptEvent::Received), Stage::Dispatched);
    assert_eq!(advance(&Stage::Connecting, &AttemptEvent::Start), Stage::Connecting);
}

#[test]
fn decide_accepts_any_acceptance() {
    assert!(decide(&vec![Resolution::Failed, Resolution::Accepted, Resolution::Rejected]));
    assert!(decide(&vec![Resolution::Accepted]));
    assert!(!decide(&vec![Resolution::Failed, Resolution::Rejected]));
    assert!(!decide(&vec![]));
}

#[test]
fn one_device_accepts() {
    let mut race = RaceState::new(1);
    assert!(!race.concluded());
    race.on_resolution(&Resolution::Accepted);
    assert!(race.concluded());
    assert!(race.is_approved());
}

#[test]
fn one_device_unreachable() {
    let mut race = RaceState::new(1);
    race.on_resolution(&Resolution::Failed);
    assert!(race.concluded());
    assert!(!race.is_approved());
}

#[test]
fn acceptance_wins_whatever_the_order() {
    // One attempt fails, the other accepts: approved in either arrival order.
    let mut race = RaceState::new(2);
    race.on_resolution(&Resolution::Failed);
    assert!(!race.concluded());
    race.on_resolution(&Resolution::Accepted);
    assert!(race.concluded());
    assert!(race.is_approved());

    let mut race = RaceState::new(2);
    race.on_resolution(&Resolution::Accepted);
    // The race concludes the instant an attempt is accepted, without
    // waiting for the slower attempt.
    assert!(race.concluded());
    assert!(race.is_approved());
}

#[test]
fn all_devices_fail_means_denied() {
    let mut race = RaceState::new(3);
    race.on_resolution(&Resolution::Failed);
    race.on_resolution(&Resolution::Rejected);
    assert!(!race.concluded());
    race.on_resolution(&Resolution::Failed);
    assert!(race.concluded());
    assert!(!race.is_approved());
}

#[test]
fn acceptance_latches() {
    let mut race = RaceState::new(3);
    race.on_resolution(&Resolution::Accepted);
    race.on_resolution(&Resolution::Rejected);
    race.on_resolution(&Resolution::Failed);
    assert!(race.is_approved());
}
