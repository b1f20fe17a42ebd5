use kaphd::agent::{Agent, AgentAction, AgentEvent, Kind, Opts, Phase};
use kaphd::drain::{termination_instant, ShutdownCoordinator, DRAIN_TIMEOUT_SECS};
use kaphd::error::Error;
use kaphd::lifecycle::SocketLifecycle;

#[test]
fn drain_notification_fires_on_the_last_completion_only() {
    let mut c = ShutdownCoordinator::new();
    c.register_dispatch();
    c.register_dispatch();
    c.register_dispatch();
    assert!(c.must_wait());
    assert!(!c.complete_dispatch());
    assert!(!c.complete_dispatch());
    assert!(c.complete_dispatch());
    assert!(!c.must_wait());
}

#[test]
fn termination_is_at_the_last_completion_when_all_drain_in_time() {
    // Cancellation at 100; three dispatches finish within the timeout.
    let completions = vec![101u64, 120, 111];
    assert_eq!(termination_instant(100, &completions), 120);
}

#[test]
fn termination_with_nothing_in_flight_is_at_cancellation() {
    // Near-instant termination, not a 30-second wait.
    let completions: Vec<u64> = vec![];
    assert_eq!(termination_instant(100, &completions), 100);
}

#[test]
fn termination_is_at_the_timeout_when_a_dispatch_overruns() {
    // One handler does not complete until 5 seconds past the timeout:
    // termination is at the 30-second mark, independent of it.
    let completions = vec![101u64, 100 + DRAIN_TIMEOUT_SECS + 5];
    assert_eq!(termination_instant(100, &completions), 100 + DRAIN_TIMEOUT_SECS);
    assert_eq!(DRAIN_TIMEOUT_SECS, 30);
}

#[test]
fn lifecycle_binds_over_a_stale_entry() {
    // A pre-existing file at the path is deleted first; the bind succeeds.
    let mut lc = SocketLifecycle::at(String::from("/tmp/kaphd-test.sock"), true);
    assert!(lc.bind(true, true).is_ok());
    assert!(lc.bound);
    assert!(lc.entry_present);
}

#[test]
fn lifecycle_bind_twice_with_no_live_listener() {
    // First instance binds, then goes away without cleanup: its socket
    // entry stays. The second bind still succeeds.
    let mut first = SocketLifecycle::at(String::from("/tmp/kaphd-test.sock"), false);
    assert!(first.bind(true, true).is_ok());
    let mut second = SocketLifecycle::at(String::from("/tmp/kaphd-test.sock"), first.entry_present);
    assert!(second.bind(true, true).is_ok());
}

#[test]
fn lifecycle_failed_removal_is_a_socket_error() {
    let mut lc = SocketLifecycle::at(String::from("/tmp/kaphd-test.sock"), true);
    assert_eq!(
        lc.bind(false, true),
        Err(Error::Socket(String::from("cannot remove previous socket file")))
    );
    assert!(!lc.bound);
}

#[test]
fn lifecycle_failed_bind_is_a_socket_error() {
    let mut lc = SocketLifecycle::at(String::from("/tmp/kaphd-test.sock"), false);
    assert_eq!(lc.bind(true, false), Err(Error::Socket(String::from("bind failure"))));
    assert!(!lc.bound);
}

#[test]
fn lifecycle_teardown_removes_the_path_once() {
    let mut lc = SocketLifecycle::at(String::from("/tmp/kaphd-test.sock"), false);
    assert!(lc.bind(true, true).is_ok());
    assert!(lc.teardown(true).is_ok());
    assert!(!lc.bound);
    assert!(!lc.entry_present);
}

#[test]
fn lifecycle_failed_teardown_removal_is_fatal() {
    let mut lc = SocketLifecycle::at(String::from("/tmp/kaphd-test.sock"), false);
    assert!(lc.bind(true, true).is_ok());
    assert_eq!(
        lc.teardown(false),
        Err(Error::Socket(String::from("cannot remove socket file")))
    );
}

fn accepting_agent() -> Agent {
    let mut agent = Agent::new(Opts {
        name: String::from("server-1"),
        kind: Kind::Server,
        socket_path: Some(String::from("/tmp/kaphd-server.sock")),
        join: None,
    });
    assert_eq!(agent.step(AgentEvent::BindSucceeded), AgentAction::Continue);
    assert_eq!(agent.phase, Phase::Bound);
    assert_eq!(agent.step(AgentEvent::AcceptLoopStarted), AgentAction::Continue);
    assert_eq!(agent.phase, Phase::Accepting);
    agent
}

#[test]
fn a_failed_dispatch_leaves_the_accept_loop_accepting() {
    let mut agent = accepting_agent();
    assert_eq!(agent.step(AgentEvent::ConnectionAccepted), AgentAction::SpawnDispatch);
    assert_eq!(agent.step(AgentEvent::ConnectionAccepted), AgentAction::SpawnDispatch);
    // One dispatch fails: the agent keeps accepting, and only the
    // in-flight count changes — the other dispatch is untouched.
    assert_eq!(
        agent.step(AgentEvent::DispatchFinished { failed: true }),
        AgentAction::Continue
    );
    assert_eq!(agent.phase, Phase::Accepting);
    assert_eq!(agent.coordinator.active, 1);
    assert!(!agent.coordinator.cancelled);
    assert_eq!(
        agent.step(AgentEvent::DispatchFinished { failed: false }),
        AgentAction::NotifyDrained
    );
    assert_eq!(agent.phase, Phase::Accepting);
}

#[test]
fn cancellation_with_nothing_in_flight_drains_immediately() {
    let mut agent = accepting_agent();
    assert_eq!(
        agent.step(AgentEvent::CancellationReceived),
        AgentAction::AwaitDrain { immediate: true }
    );
    assert_eq!(agent.phase, Phase::Draining);
    assert_eq!(agent.step(AgentEvent::EndpointReleased), AgentAction::Continue);
    assert_eq!(agent.phase, Phase::Terminated);
}

#[test]
fn cancellation_with_work_in_flight_waits_for_the_drain() {
    let mut agent = accepting_agent();
    assert_eq!(agent.step(AgentEvent::ConnectionAccepted), AgentAction::SpawnDispatch);
    assert_eq!(
        agent.step(AgentEvent::CancellationReceived),
        AgentAction::AwaitDrain { immediate: false }
    );
    assert_eq!(agent.phase, Phase::Draining);
    // The dispatch in flight runs to completion and fires the drain.
    assert_eq!(
        agent.step(AgentEvent::DispatchFinished { failed: false }),
        AgentAction::NotifyDrained
    );
    assert_eq!(agent.step(AgentEvent::EndpointReleased), AgentAction::Continue);
    assert_eq!(agent.phase, Phase::Terminated);
}

#[test]
fn a_failed_bind_aborts() {
    let mut agent = Agent::new(Opts {
        name: String::from("server-1"),
        kind: Kind::Server,
        socket_path: Some(String::from("/tmp/kaphd-server.sock")),
        join: None,
    });
    assert_eq!(agent.step(AgentEvent::BindFailed), AgentAction::Abort);
    assert_eq!(agent.phase, Phase::Terminated);
}
