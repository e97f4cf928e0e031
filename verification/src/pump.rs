//! The consumer-group pump: its lifecycle state machine and the model of
//! record delivery and offset commit that every pump follows. The laws at the
//! bottom state the delivery regime: per-partition order is preserved, and
//! under handler-driven commit the offset never passes a record before the
//! handler has succeeded on it.

use vstd::prelude::*;

verus! {

/// Lifecycle state of one consumer-group pump.
#[derive(Clone, Copy, Debug, PartialEq, Eq, Structural)]
pub enum PumpState {
    /// Registered, not yet started.
    Init,
    /// Delivering records.
    Running,
    /// Stop signalled; finishing the in-flight handler invocation.
    Draining,
    /// Terminal: drained or forcibly dropped.
    Stopped,
    /// Terminal: torn down by an unrecoverable error.
    Faulted,
}

/// An event a pump reacts to.
#[derive(Clone, Copy, Debug, PartialEq, Eq, Structural)]
pub enum PumpEvent {
    /// Initial assignment acknowledged; begin delivering.
    Start,
    /// Shutdown asked the pump to stop after the in-flight invocation.
    StopSignal,
    /// All in-flight work completed.
    Drained,
    /// An error the pump cannot recover from.
    UnrecoverableError,
    /// The graceful-shutdown deadline expired.
    DeadlineExceeded,
}

/// A pump state is terminal when no event moves it.
pub open spec fn pump_is_terminal(s: PumpState) -> bool {
    s == PumpState::Stopped || s == PumpState::Faulted
}

/// The pump lifecycle transition relation. Events that the current state does
/// not react to leave it unchanged.
pub open spec fn pump_next(s: PumpState, e: PumpEvent) -> PumpState {
    match (s, e) {
        (PumpState::Init, PumpEvent::Start) => PumpState::Running,
        (PumpState::Running, PumpEvent::StopSignal) => PumpState::Draining,
        (PumpState::Running, PumpEvent::UnrecoverableError) => PumpState::Faulted,
        (PumpState::Draining, PumpEvent::Drained) => PumpState::Stopped,
        (PumpState::Draining, PumpEvent::DeadlineExceeded) => PumpState::Stopped,
        _ => s,
    }
}

/// Steps a pump's lifecycle state by one event.
pub fn pump_transition(s: PumpState, e: PumpEvent) -> (r: PumpState)
    ensures
        r == pump_next(s, e),
{
    match (s, e) {
        (PumpState::Init, PumpEvent::Start) => PumpState::Running,
        (PumpState::Running, PumpEvent::StopSignal) => PumpState::Draining,
        (PumpState::Running, PumpEvent::UnrecoverableError) => PumpState::Faulted,
        (PumpState::Draining, PumpEvent::Drained) => PumpState::Stopped,
        (PumpState::Draining, PumpEvent::DeadlineExceeded) => PumpState::Stopped,
        (other, _) => other,
    }
}

/// `Stopped` and `Faulted` are absorbing: once a pump reaches either, no
/// event moves it again.
pub proof fn lemma_terminal_absorbing(s: PumpState, e: PumpEvent)
    requires
        pump_is_terminal(s),
    ensures
        pump_next(s, e) == s,
{
}

/// The offset advances past a delivered record exactly when the commit is
/// backend-managed or the handler succeeded.
pub open spec fn pump_advances(auto_commit: bool, handler_ok: bool) -> bool {
    auto_commit || handler_ok
}

/// The committed offset after a pump starting at `start` processes the given
/// handler outcomes against a topic log of `log_len` records. An outcome is
/// consumed even when no record is available, in which case nothing moves.
pub open spec fn pump_run_offset(
    auto_commit: bool,
    log_len: nat,
    start: nat,
    outcomes: Seq<bool>,
) -> nat
    decreases outcomes.len(),
{
    if outcomes.len() == 0 {
        start
    } else {
        let next = if start < log_len && pump_advances(auto_commit, outcomes[0]) {
            (start + 1) as nat
        } else {
            start
        };
        pump_run_offset(auto_commit, log_len, next, outcomes.drop_first())
    }
}

/// Every payload the handler observes, in delivery order, when a pump
/// starting at `start` processes the given outcomes against `log`.
pub open spec fn pump_observed(
    log: Seq<Seq<u8>>,
    auto_commit: bool,
    start: nat,
    outcomes: Seq<bool>,
) -> Seq<Seq<u8>>
    decreases outcomes.len(),
{
    if outcomes.len() == 0 {
        Seq::<Seq<u8>>::empty()
    } else if start < log.len() {
        let next = if pump_advances(auto_commit, outcomes[0]) {
            (start + 1) as nat
        } else {
            start
        };
        seq![log[start as int]] + pump_observed(log, auto_commit, next, outcomes.drop_first())
    } else {
        pump_observed(log, auto_commit, start, outcomes.drop_first())
    }
}

/// The payloads the handler observed with success, in delivery order.
pub open spec fn pump_acked(
    log: Seq<Seq<u8>>,
    auto_commit: bool,
    start: nat,
    outcomes: Seq<bool>,
) -> Seq<Seq<u8>>
    decreases outcomes.len(),
{
    if outcomes.len() == 0 {
        Seq::<Seq<u8>>::empty()
    } else if start < log.len() {
        let next = if pump_advances(auto_commit, outcomes[0]) {
            (start + 1) as nat
        } else {
            start
        };
        let here = if outcomes[0] {
            seq![log[start as int]]
        } else {
            Seq::<Seq<u8>>::empty()
        };
        here + pump_acked(log, auto_commit, next, outcomes.drop_first())
    } else {
        pump_acked(log, auto_commit, start, outcomes.drop_first())
    }
}

/// The committed offset never runs backwards and never passes the end of the
/// log.
pub proof fn lemma_pump_offset_bounds(
    auto_commit: bool,
    log_len: nat,
    start: nat,
    outcomes: Seq<bool>,
)
    requires
        start <= log_len,
    ensures
        start <= pump_run_offset(auto_commit, log_len, start, outcomes) <= log_len,
    decreases outcomes.len(),
{
    if outcomes.len() > 0 {
        let next = if start < log_len && pump_advances(auto_commit, outcomes[0]) {
            (start + 1) as nat
        } else {
            start
        };
        lemma_pump_offset_bounds(auto_commit, log_len, next, outcomes.drop_first());
    }
}

/// At-least-once under handler-driven commit: the payloads the handler
/// acknowledged are exactly the log records between the starting and final
/// committed offsets, in production order. So no offset passes a record
/// before the handler has succeeded on it, every committed record was
/// delivered with success, and successes arrive in production order with
/// nothing skipped and nothing reordered.
pub proof fn lemma_manual_commit_acks_in_order(log: Seq<Seq<u8>>, start: nat, outcomes: Seq<bool>)
    requires
        start <= log.len(),
    ensures
        pump_acked(log, false, start, outcomes) == log.subrange(
            start as int,
            pump_run_offset(false, log.len(), start, outcomes) as int,
        ),
    decreases outcomes.len(),
{
    lemma_pump_offset_bounds(false, log.len(), start, outcomes);
    if outcomes.len() == 0 {
        assert(pump_acked(log, false, start, outcomes) =~= log.subrange(
            start as int,
            start as int,
        ));
    } else {
        let rest = outcomes.drop_first();
        if start < log.len() {
            if outcomes[0] {
                lemma_manual_commit_acks_in_order(log, (start + 1) as nat, rest);
                lemma_pump_offset_bounds(false, log.len(), (start + 1) as nat, rest);
                let fin = pump_run_offset(false, log.len(), (start + 1) as nat, rest);
                assert(pump_acked(log, false, start, outcomes) =~= log.subrange(
                    start as int,
                    fin as int,
                ));
            } else {
                lemma_manual_commit_acks_in_order(log, start, rest);
                assert(pump_acked(log, false, start, outcomes) =~= log.subrange(
                    start as int,
                    pump_run_offset(false, log.len(), start, rest) as int,
                ));
            }
        } else {
            lemma_manual_commit_acks_in_order(log, start, rest);
        }
    }
}

/// Per-partition ordering under backend-managed commit: the handler observes
/// exactly the log records between the starting and final offsets, in
/// production order, each exactly once.
pub proof fn lemma_auto_commit_observes_in_order(
    log: Seq<Seq<u8>>,
    start: nat,
    outcomes: Seq<bool>,
)
    requires
        start <= log.len(),
    ensures
        pump_observed(log, true, start, outcomes) == log.subrange(
            start as int,
            pump_run_offset(true, log.len(), start, outcomes) as int,
        ),
    decreases outcomes.len(),
{
    lemma_pump_offset_bounds(true, log.len(), start, outcomes);
    if outcomes.len() == 0 {
        assert(pump_observed(log, true, start, outcomes) =~= log.subrange(
            start as int,
            start as int,
        ));
    } else {
        let rest = outcomes.drop_first();
        if start < log.len() {
            lemma_auto_commit_observes_in_order(log, (start + 1) as nat, rest);
            lemma_pump_offset_bounds(true, log.len(), (start + 1) as nat, rest);
            let fin = pump_run_offset(true, log.len(), (start + 1) as nat, rest);
            assert(pump_observed(log, true, start, outcomes) =~= log.subrange(
                start as int,
                fin as int,
            ));
        } else {
            lemma_auto_commit_observes_in_order(log, start, rest);
        }
    }
}

/// A handler that fails on first delivery and succeeds on the retry, under
/// handler-driven commit: the failure commits nothing, the record is
/// acknowledged exactly once, and only the success moves the offset past it.
pub proof fn lemma_fail_then_retry_commits_once(log: Seq<Seq<u8>>, start: nat)
    requires
        start < log.len(),
    ensures
        pump_run_offset(false, log.len(), start, seq![false]) == start,
        pump_acked(log, false, start, seq![false, true]) == seq![log[start as int]],
        pump_run_offset(false, log.len(), start, seq![false, true]) == start + 1,
{
    let outs = seq![false, true];
    assert(seq![false].drop_first() =~= Seq::<bool>::empty());
    assert(pump_run_offset(false, log.len(), start, Seq::<bool>::empty()) == start);
    assert(pump_run_offset(false, log.len(), start, seq![false]) == start);
    assert(outs.drop_first() =~= seq![true]);
    assert(seq![true].drop_first() =~= Seq::<bool>::empty());
    assert(pump_run_offset(false, log.len(), (start + 1) as nat, Seq::<bool>::empty()) == start
        + 1);
    assert(pump_run_offset(false, log.len(), start, seq![true]) == start + 1);
    assert(pump_run_offset(false, log.len(), start, outs) == start + 1);
    lemma_manual_commit_acks_in_order(log, start, outs);
    assert(log.subrange(start as int, (start + 1) as int) =~= seq![log[start as int]]);
}

} // verus!
