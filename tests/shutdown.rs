use supervisor::shared::SharedState;
use supervisor::supervisor::{exit_code, Action, Event, Supervisor, POLL_LIMIT};

fn started() -> Supervisor {
    let mut s = Supervisor::new(POLL_LIMIT);
    assert_eq!(s.step(Event::CloseTracker), Action::Continue);
    s
}

#[test]
fn bound_reached_without_signal_exits_zero() {
    let mut s = started();
    let mut writes: u32 = 0;
    for i in 0..POLL_LIMIT {
        if i % 5 == 0 {
            assert_eq!(s.step(Event::WriteDone { failed: false }), Action::Continue);
            writes += 1;
        }
        let expected = if i + 1 == POLL_LIMIT { Action::Stop } else { Action::Continue };
        assert_eq!(s.step(Event::PollTick), expected);
    }
    assert!(s.is_fired());
    assert_eq!(s.polls(), 30);
    assert_eq!(s.step(Event::CancelSeen), Action::Resolved(0));
    assert_eq!(s.step(Event::ArmWatchdog), Action::Continue);
    assert_eq!(s.final_code(), None);
    // the write in flight completes, then the writer sees the latch
    assert_eq!(s.step(Event::WriteDone { failed: false }), Action::Stop);
    writes += 1;
    assert_eq!(s.final_code(), Some(0));
    assert_eq!(s.counter(), writes);
    assert_eq!(s.counter(), 7);
}

#[test]
fn interrupt_right_after_start_exits_one() {
    let mut s = started();
    assert_eq!(s.step(Event::Interrupt), Action::Resolved(1));
    assert!(s.is_fired());
    assert_eq!(s.step(Event::ArmWatchdog), Action::Continue);
    assert_eq!(s.step(Event::PollTick), Action::Stop);
    assert_eq!(s.polls(), 0);
    assert_eq!(s.step(Event::WriteDone { failed: false }), Action::Stop);
    assert_eq!(s.final_code(), Some(1));
    assert_eq!(s.counter(), 1);
}

#[test]
fn terminate_request_exits_one() {
    let mut s = started();
    assert_eq!(s.step(Event::PollTick), Action::Continue);
    assert_eq!(s.step(Event::Terminate), Action::Resolved(1));
    assert_eq!(s.step(Event::PollTick), Action::Stop);
    assert_eq!(s.polls(), 1);
    assert_eq!(s.step(Event::WriteDone { failed: false }), Action::Stop);
    assert_eq!(s.final_code(), Some(1));
}

#[test]
fn recorded_failure_becomes_exit_code() {
    let mut s = started();
    assert_eq!(s.step(Event::WriteDone { failed: true }), Action::Continue);
    assert_eq!(s.failure_code(), 1);
    assert_eq!(s.step(Event::WriteDone { failed: false }), Action::Continue);
    assert_eq!(s.failure_code(), 1);
    for _ in 0..POLL_LIMIT {
        s.step(Event::PollTick);
    }
    assert_eq!(s.step(Event::CancelSeen), Action::Resolved(0));
    assert_eq!(s.step(Event::WriteDone { failed: false }), Action::Stop);
    assert_eq!(s.final_code(), Some(1));
    assert_eq!(s.counter(), 3);
}

#[test]
fn interrupt_after_internal_shutdown_keeps_code_zero() {
    let mut s = started();
    for _ in 0..POLL_LIMIT {
        s.step(Event::PollTick);
    }
    assert_eq!(s.step(Event::Interrupt), Action::Resolved(0));
    assert_eq!(s.step(Event::WriteDone { failed: false }), Action::Stop);
    assert_eq!(s.final_code(), Some(0));
}

#[test]
fn second_interrupt_forces_exit() {
    let mut s = started();
    assert_eq!(s.step(Event::Interrupt), Action::Resolved(1));
    assert_eq!(s.step(Event::ArmWatchdog), Action::Continue);
    // workers have not drained yet
    assert_eq!(s.final_code(), None);
    assert_eq!(s.step(Event::Interrupt), Action::ForceExit(1));
    assert_eq!(s.final_code(), Some(1));
    assert_eq!(s.step(Event::PollTick), Action::Ignored);
}

#[test]
fn forced_exit_overrides_clean_code() {
    let mut s = started();
    for _ in 0..POLL_LIMIT {
        s.step(Event::PollTick);
    }
    assert_eq!(s.step(Event::CancelSeen), Action::Resolved(0));
    assert_eq!(s.step(Event::ArmWatchdog), Action::Continue);
    assert_eq!(s.step(Event::Interrupt), Action::ForceExit(1));
    assert_eq!(s.final_code(), Some(1));
}

#[test]
fn repeated_interrupt_before_watchdog_is_one_interrupt() {
    let mut s = started();
    assert_eq!(s.step(Event::Interrupt), Action::Resolved(1));
    assert_eq!(s.step(Event::Interrupt), Action::Ignored);
    assert_eq!(s.step(Event::Terminate), Action::Ignored);
    assert_eq!(s.step(Event::PollTick), Action::Stop);
    assert_eq!(s.step(Event::WriteDone { failed: false }), Action::Stop);
    assert_eq!(s.final_code(), Some(1));
}

#[test]
fn latch_stays_set_and_firing_again_changes_nothing() {
    let mut s = started();
    assert!(!s.is_fired());
    assert_eq!(s.step(Event::Terminate), Action::Resolved(1));
    assert!(s.is_fired());
    assert_eq!(s.step(Event::Interrupt), Action::Ignored);
    assert!(s.is_fired());
    assert_eq!(s.step(Event::WriteDone { failed: false }), Action::Stop);
    assert!(s.is_fired());
    assert_eq!(s.step(Event::WriteDone { failed: false }), Action::Ignored);
    assert_eq!(s.counter(), 1);
}

#[test]
fn counter_never_decreases() {
    let mut s = started();
    let mut last = s.counter();
    let events = [
        Event::WriteDone { failed: false },
        Event::PollTick,
        Event::WriteDone { failed: true },
        Event::Interrupt,
        Event::WriteDone { failed: false },
        Event::PollTick,
        Event::WriteDone { failed: false },
    ];
    for e in events {
        s.step(e);
        assert!(s.counter() >= last);
        last = s.counter();
    }
    assert_eq!(last, 3);
}

#[test]
fn bridge_waits_for_the_latch() {
    let mut s = started();
    assert_eq!(s.step(Event::CancelSeen), Action::Ignored);
    assert_eq!(s.step(Event::ArmWatchdog), Action::Ignored);
    assert_eq!(s.step(Event::Interrupt), Action::Resolved(1));
}

#[test]
fn unclosed_tracker_is_not_drained() {
    let mut s = Supervisor::new(1);
    assert_eq!(s.step(Event::PollTick), Action::Stop);
    assert_eq!(s.step(Event::CancelSeen), Action::Resolved(0));
    assert_eq!(s.step(Event::WriteDone { failed: false }), Action::Stop);
    assert_eq!(s.final_code(), None);
    assert_eq!(s.step(Event::CloseTracker), Action::Continue);
    assert_eq!(s.final_code(), Some(0));
}

#[test]
fn zero_bound_stops_at_first_tick() {
    let mut s = Supervisor::new(0);
    assert_eq!(s.step(Event::PollTick), Action::Stop);
    assert_eq!(s.polls(), 1);
    assert!(s.is_fired());
}

#[test]
fn exit_code_rule() {
    assert_eq!(exit_code(1, 0), 1);
    assert_eq!(exit_code(1, 1), 1);
    assert_eq!(exit_code(0, 0), 0);
    assert_eq!(exit_code(0, 1), 1);
    assert_eq!(exit_code(0, 7), 7);
}

#[test]
fn shared_state_records() {
    let mut st = SharedState::new();
    assert_eq!(st.counter, 0);
    assert_eq!(st.failure_code, 0);
    st.record_write();
    st.record_write();
    assert_eq!(st.counter, 2);
    st.record_failure(1);
    assert_eq!(st.failure_code, 1);
    assert_eq!(st.counter, 2);
}

#[test]
fn shared_counter_saturates() {
    let mut st = SharedState::new();
    st.counter = u32::MAX;
    st.record_write();
    assert_eq!(st.counter, u32::MAX);
}

#[test]
fn token_follows_the_latch() {
    let mut s = started();
    let handle = s.token();
    assert!(!handle.is_cancelled());
    assert_eq!(s.step(Event::PollTick), Action::Continue);
    assert!(!handle.is_cancelled());
    assert_eq!(s.step(Event::Interrupt), Action::Resolved(1));
    assert!(handle.is_cancelled());
    assert!(s.token().is_cancelled());
}

#[test]
fn poller_bound_cancels_token() {
    let mut s = Supervisor::new(3);
    let handle = s.token();
    for _ in 0..2 {
        assert_eq!(s.step(Event::PollTick), Action::Continue);
        assert!(!handle.is_cancelled());
    }
    assert_eq!(s.step(Event::PollTick), Action::Stop);
    assert!(handle.is_cancelled());
}
