use msgbus::pump::pump_transition;
use msgbus::PumpEvent;
use msgbus::PumpState;

#[test]
fn pump_lifecycle_happy_path() {
    let s = PumpState::Init;
    let s = pump_transition(s, PumpEvent::Start);
    assert_eq!(s, PumpState::Running);
    let s = pump_transition(s, PumpEvent::StopSignal);
    assert_eq!(s, PumpState::Draining);
    let s = pump_transition(s, PumpEvent::Drained);
    assert_eq!(s, PumpState::Stopped);
}

#[test]
fn pump_faults_on_unrecoverable_error() {
    let s = pump_transition(PumpState::Running, PumpEvent::UnrecoverableError);
    assert_eq!(s, PumpState::Faulted);
}

#[test]
fn pump_deadline_forces_stop() {
    let s = pump_transition(PumpState::Draining, PumpEvent::DeadlineExceeded);
    assert_eq!(s, PumpState::Stopped);
}

#[test]
fn terminal_states_absorb_every_event() {
    let events = [
        PumpEvent::Start,
        PumpEvent::StopSignal,
        PumpEvent::Drained,
        PumpEvent::UnrecoverableError,
        PumpEvent::DeadlineExceeded,
    ];
    for e in events {
        assert_eq!(pump_transition(PumpState::Stopped, e), PumpState::Stopped);
        assert_eq!(pump_transition(PumpState::Faulted, e), PumpState::Faulted);
    }
}

#[test]
fn unmatched_events_leave_state_alone() {
    assert_eq!(
        pump_transition(PumpState::Init, PumpEvent::Drained),
        PumpState::Init
    );
    assert_eq!(
        pump_transition(PumpState::Running, PumpEvent::Start),
        PumpState::Running
    );
    assert_eq!(
        pump_transition(PumpState::Draining, PumpEvent::StopSignal),
        PumpState::Draining
    );
}
