//! The agent: role, options, and the lifecycle state machine
//! `Initializing -> Bound -> Accepting -> Draining -> Terminated`.
//!
//! The runtime around the library performs the waiting — the next
//! connection, the cancellation signal, the drain notification or its
//! timeout — and reports each outcome as an event; the machine holds the
//! phase and the in-flight count and decides what follows. Cancellation
//! moves an accepting agent to draining, after which no connection is
//! admitted; draining ends with the endpoint released, exactly once.

use vstd::prelude::*;
use vstd::string::StringExecFns;

use crate::drain::{spec_complete, ShutdownCoordinator};
use crate::error::Error;

verus! {

/// The role an agent runs as: a worker (`Node`) or the control plane
/// (`Server`).
#[derive(Clone, Copy, Debug, PartialEq, Eq, Structural)]
pub enum Kind {
    Node,
    Server,
}

/// An agent's options: immutable once constructed. A `Node` must carry
/// the address of the server it joins.
#[derive(Clone, Debug, PartialEq, Eq)]
pub struct Opts {
    pub name: String,
    pub kind: Kind,
    pub socket_path: Option<String>,
    pub join: Option<String>,
}

/// The default endpoint path of a role.
pub open spec fn spec_default_socket_path(kind: Kind) -> Seq<char> {
    match kind {
        Kind::Node => "/tmp/kaphd-node.sock"@,
        Kind::Server => "/tmp/kaphd-server.sock"@,
    }
}

/// The default endpoint path of a role, computed once when options are
/// resolved.
pub fn default_socket_path(kind: Kind) -> (r: String)
    ensures
        r@ == spec_default_socket_path(kind),
{
    match kind {
        Kind::Node => String::from_str("/tmp/kaphd-node.sock"),
        Kind::Server => String::from_str("/tmp/kaphd-server.sock"),
    }
}

impl Opts {
    /// Validates and defaults the options: a node without a join address
    /// is rejected, and an absent socket path becomes the role's default.
    /// Everything else is kept as given.
    pub fn resolve(self) -> (r: Result<Opts, Error>)
        ensures
            (self.kind is Node && self.join is None) ==> (r matches Err(e) && e matches
                Error::Config(t) && t@ == "nodes must join a server"@),
            !(self.kind is Node && self.join is None) ==> (r matches Ok(o) && o.name == self.name
                && o.kind == self.kind && o.join == self.join && (
            self.socket_path is Some ==> o.socket_path == self.socket_path) && (
            self.socket_path is None ==> (o.socket_path matches Some(p) && p@
                == spec_default_socket_path(self.kind)))),
    {
        if matches!(self.kind, Kind::Node) && self.join.is_none() {
            return Err(Error::Config(String::from_str("nodes must join a server")));
        }
        if self.socket_path.is_none() {
            let path = default_socket_path(self.kind);
            Ok(Opts { socket_path: Some(path), ..self })
        } else {
            Ok(self)
        }
    }
}

/// The phase of an agent's lifecycle.
#[derive(Clone, Copy, Debug, PartialEq, Eq, Structural)]
pub enum Phase {
    Initializing,
    Bound,
    Accepting,
    Draining,
    Terminated,
}

/// What the runtime observed and reports to the machine.
#[derive(Clone, Copy, Debug, PartialEq, Eq, Structural)]
pub enum AgentEvent {
    BindSucceeded,
    BindFailed,
    AcceptLoopStarted,
    ConnectionAccepted,
    DispatchFinished { failed: bool },
    CancellationReceived,
    EndpointReleased,
}

/// What the runtime must do next.
#[derive(Clone, Copy, Debug, PartialEq, Eq, Structural)]
pub enum AgentAction {
    /// Keep going; nothing is owed.
    Continue,
    /// Run the accepted connection's dispatch as its own concurrent unit.
    SpawnDispatch,
    /// Fire the drain notification: the last in-flight dispatch finished.
    NotifyDrained,
    /// Stop accepting and wait for the drain: immediately over when
    /// nothing is in flight, else bounded by the drain timeout.
    AwaitDrain { immediate: bool },
    /// Release the endpoint and exit: the bind failed fatally.
    Abort,
}

/// An agent: its resolved options and its lifecycle state.
pub struct Agent {
    pub opts: Opts,
    pub phase: Phase,
    pub coordinator: ShutdownCoordinator,
}

impl Agent {
    /// What each phase guarantees of the in-flight count and the
    /// cancellation flag.
    pub open spec fn wf(self) -> bool {
        &&& ((self.phase is Initializing || self.phase is Bound) ==> (self.coordinator.active == 0
            && !self.coordinator.cancelled))
        &&& (self.phase is Accepting ==> !self.coordinator.cancelled)
        &&& (self.phase is Draining ==> self.coordinator.cancelled)
    }

    /// Which events a state can take.
    pub open spec fn accepts_event(self, e: AgentEvent) -> bool {
        match e {
            AgentEvent::BindSucceeded => self.phase is Initializing,
            AgentEvent::BindFailed => self.phase is Initializing,
            AgentEvent::AcceptLoopStarted => self.phase is Bound,
            AgentEvent::ConnectionAccepted => self.phase is Accepting
                && !self.coordinator.cancelled && self.coordinator.active < u64::MAX,
            AgentEvent::DispatchFinished { .. } => (self.phase is Accepting || self.phase
                is Draining) && self.coordinator.active > 0,
            AgentEvent::CancellationReceived => self.phase is Accepting,
            AgentEvent::EndpointReleased => self.phase is Draining,
        }
    }

    /// An agent over already-resolved options, about to initialize.
    pub fn new(opts: Opts) -> (a: Agent)
        ensures
            a.opts == opts,
            a.phase is Initializing,
            a.coordinator.active == 0,
            !a.coordinator.cancelled,
            a.wf(),
    {
        Agent { opts, phase: Phase::Initializing, coordinator: ShutdownCoordinator::new() }
    }

    /// Takes one event: the machine moves as [`spec_step`] says and hands
    /// back what the runtime must do.
    pub fn step(&mut self, e: AgentEvent) -> (a: AgentAction)
        requires
            old(self).accepts_event(e),
        ensures
            (*final(self), a) == spec_step(*old(self), e),
            old(self).wf() ==> final(self).wf(),
    {
        match e {
            AgentEvent::BindSucceeded => {
                self.phase = Phase::Bound;
                AgentAction::Continue
            }
            AgentEvent::BindFailed => {
                self.phase = Phase::Terminated;
                AgentAction::Abort
            }
            AgentEvent::AcceptLoopStarted => {
                self.phase = Phase::Accepting;
                AgentAction::Continue
            }
            AgentEvent::ConnectionAccepted => {
                self.coordinator.register_dispatch();
                AgentAction::SpawnDispatch
            }
            AgentEvent::DispatchFinished { failed: _ } => {
                let drained = self.coordinator.complete_dispatch();
                if drained {
                    AgentAction::NotifyDrained
                } else {
                    AgentAction::Continue
                }
            }
            AgentEvent::CancellationReceived => {
                let immediate = !self.coordinator.must_wait();
                self.coordinator.cancel();
                self.phase = Phase::Draining;
                AgentAction::AwaitDrain { immediate }
            }
            AgentEvent::EndpointReleased => {
                self.phase = Phase::Terminated;
                AgentAction::Continue
            }
        }
    }
}

/// One move of the lifecycle machine.
pub open spec fn spec_step(s: Agent, e: AgentEvent) -> (Agent, AgentAction)
    recommends
        s.accepts_event(e),
{
    match e {
        AgentEvent::BindSucceeded => (Agent { phase: Phase::Bound, ..s }, AgentAction::Continue),
        AgentEvent::BindFailed => (Agent { phase: Phase::Terminated, ..s }, AgentAction::Abort),
        AgentEvent::AcceptLoopStarted => (
            Agent { phase: Phase::Accepting, ..s },
            AgentAction::Continue,
        ),
        AgentEvent::ConnectionAccepted => (
            Agent {
                coordinator: ShutdownCoordinator {
                    active: (s.coordinator.active + 1) as u64,
                    cancelled: s.coordinator.cancelled,
                },
                ..s
            },
            AgentAction::SpawnDispatch,
        ),
        AgentEvent::DispatchFinished { .. } => {
            let (c, drained) = spec_complete(s.coordinator);
            (
                Agent { coordinator: c, ..s },
                if drained {
                    AgentAction::NotifyDrained
                } else {
                    AgentAction::Continue
                },
            )
        }
        AgentEvent::CancellationReceived => (
            Agent {
                phase: Phase::Draining,
                coordinator: ShutdownCoordinator {
                    active: s.coordinator.active,
                    cancelled: true,
                },
                ..s
            },
            AgentAction::AwaitDrain { immediate: s.coordinator.active == 0 },
        ),
        AgentEvent::EndpointReleased => (
            Agent { phase: Phase::Terminated, ..s },
            AgentAction::Continue,
        ),
    }
}

/// Isolation: a dispatch finishing — in failure or in success — has the
/// one effect of dropping the in-flight count by one. It never leaves the
/// accepting phase, and the machine after it does not depend on whether
/// the dispatch failed, so one failed dispatch reaches neither the accept
/// loop nor any other dispatch.
pub proof fn law_dispatch_isolation(s: Agent, failed: bool)
    requires
        s.phase is Accepting,
        s.coordinator.active > 0,
    ensures
        ({
            let (s2, _) = spec_step(s, AgentEvent::DispatchFinished { failed });
            &&& s2.phase is Accepting
            &&& s2 == spec_step(s, AgentEvent::DispatchFinished { failed: false }).0
            &&& s2.opts == s.opts
            &&& s2.coordinator.active == s.coordinator.active - 1
            &&& s2.coordinator.cancelled == s.coordinator.cancelled
        }),
{
}

/// Once cancellation is signaled, no connection is admitted: a draining
/// or terminated agent takes no `ConnectionAccepted` event, so no further
/// increment of the in-flight count occurs.
pub proof fn law_no_admission_after_cancellation(s: Agent)
    requires
        s.phase is Draining || s.phase is Terminated,
    ensures
        !s.accepts_event(AgentEvent::ConnectionAccepted),
{
}

} // verus!
