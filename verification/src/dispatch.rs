//! The per-connection dispatcher: one read, one decode, one
//! route-and-execute, one write, close.
//!
//! An empty read is rejected with the empty-message error and nothing is
//! written. A payload that decodes to no task shape is rejected with the
//! role's dispatch error, and nothing is written either: the peer observes
//! a closed connection, deliberately not an echo of untrusted malformed
//! input. A decoded task is routed by its kind to a handler — an external
//! collaborator that, given a task, produces an optional result string or
//! fails — and the composed response is written fully back. Dispatches
//! never block one another; a failure in one never reaches the accept
//! loop.

use vstd::prelude::*;
use vstd::string::StringExecFns;

use crate::agent::Kind;
use crate::codec::{decode, lossy_text, malformed_diagnostic, spec_parse, DecodeError};
use crate::error::{spec_message, Error};
use crate::message::Task;

verus! {

/// What one read leads to: execute the decoded task, or reject the
/// payload and write nothing back.
pub enum DispatchDecision {
    Execute(Task),
    Reject(Error),
}

/// One handler: given a task, produce an optional result string or fail.
/// The handlers themselves — the program installer, the health-check
/// responder, the workload launcher — are external collaborators
/// supplied by the runtime around the library.
pub trait Actor {
    fn invoke(&self, task: &Task) -> Result<Option<String>, Error>;
}

/// Supplies the handler a task is routed to, by its kind.
pub trait ActorFactory {
    type Target: Actor;

    fn resolve(&self, task: &Task) -> &Self::Target;
}

/// The dispatcher of one agent role.
pub struct Dispatcher {
    pub role: Kind,
}

/// The diagnostic a role reports for a payload in no task shape.
pub open spec fn rejected_as_malformed(role: Kind, e: Error) -> bool {
    match role {
        Kind::Server => e matches Error::Server(t) && t@ == "bad task: "@
            + malformed_diagnostic(),
        Kind::Node => e matches Error::Node(t) && t@ == "bad task: "@ + malformed_diagnostic(),
    }
}

impl Dispatcher {
    /// Screens one read payload: an empty read and a payload in no task
    /// shape are rejected — and nothing is to be written back for them —
    /// while a well-shaped payload comes back as the task to execute.
    pub fn screen(&self, bytes: &[u8]) -> (d: DispatchDecision)
        ensures
            bytes@.len() == 0 ==> (d matches DispatchDecision::Reject(e) && e matches
                Error::Socket(t) && t@ == "empty message buffer"@),
            bytes@.len() > 0 ==> match spec_parse(lossy_text(bytes@)) {
                Some(mv) => d matches DispatchDecision::Execute(t) && t.message@ == mv
                    && t.payload@ == lossy_text(bytes@),
                None => d matches DispatchDecision::Reject(e) && rejected_as_malformed(
                    self.role,
                    e,
                ),
            },
    {
        match decode(bytes) {
            Ok(task) => DispatchDecision::Execute(task),
            Err(DecodeError::EmptyMessage) => DispatchDecision::Reject(
                Error::Socket(String::from_str("empty message buffer")),
            ),
            Err(DecodeError::MalformedTask(diagnostic)) => {
                let detail = String::from_str("bad task: ").concat(diagnostic.as_str());
                match self.role {
                    Kind::Server => DispatchDecision::Reject(Error::Server(detail)),
                    Kind::Node => DispatchDecision::Reject(Error::Node(detail)),
                }
            }
        }
    }

    /// Composes the one response written back for an executed task: the
    /// default text when the handler had nothing to say, the handler's
    /// string when it had, and the formatted error text when it failed.
    pub fn compose_response(&self, outcome: Result<Option<String>, Error>) -> (r: String)
        ensures
            (outcome matches Ok(o) && o is None) ==> r@ == "task dispatched"@,
            outcome matches Ok(Some(s)) ==> r@ == s@,
            outcome matches Err(e) ==> r@ == "error dispatching tasks: "@ + spec_message(e),
    {
        match outcome {
            Ok(None) => String::from_str("task dispatched"),
            Ok(Some(s)) => s,
            Err(e) => String::from_str("error dispatching tasks: ").concat(e.message().as_str()),
        }
    }

    /// One full dispatch cycle over an already-read payload: screen it,
    /// route the decoded task to the factory's handler, compose the
    /// response to write back. A rejected payload is the error, and no
    /// response is to be written for it; an executed task always has a
    /// response, whatever the handler did.
    pub fn handle<F: ActorFactory>(&self, bytes: &[u8], factory: &F) -> (r: Result<String, Error>)
        ensures
            bytes@.len() == 0 ==> (r matches Err(e) && e matches Error::Socket(t) && t@
                == "empty message buffer"@),
            bytes@.len() > 0 ==> match spec_parse(lossy_text(bytes@)) {
                Some(_) => r is Ok,
                None => r matches Err(e) && rejected_as_malformed(self.role, e),
            },
    {
        match self.screen(bytes) {
            DispatchDecision::Reject(e) => Err(e),
            DispatchDecision::Execute(task) => {
                let outcome = factory.resolve(&task).invoke(&task);
                Ok(self.compose_response(outcome))
            }
        }
    }
}

} // verus!
