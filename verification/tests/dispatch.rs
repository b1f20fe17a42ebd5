use kaphd::agent::Kind;
use kaphd::dispatch::{Actor, ActorFactory, DispatchDecision, Dispatcher};
use kaphd::error::Error;
use kaphd::message::{Message, Task};

struct FixedActor {
    outcome: Result<Option<String>, Error>,
}

impl Actor for FixedActor {
    fn invoke(&self, _task: &Task) -> Result<Option<String>, Error> {
        self.outcome.clone()
    }
}

struct FixedFactory {
    actor: FixedActor,
}

impl ActorFactory for FixedFactory {
    type Target = FixedActor;

    fn resolve(&self, _task: &Task) -> &FixedActor {
        &self.actor
    }
}

fn quiet_factory() -> FixedFactory {
    FixedFactory { actor: FixedActor { outcome: Ok(None) } }
}

#[test]
fn empty_read_fails_with_empty_message_error_and_no_write() {
    let dispatcher = Dispatcher { role: Kind::Server };
    // The screening decision for an empty read is a rejection, which the
    // dispatcher never writes back; it carries the empty-message error.
    match dispatcher.screen(b"") {
        DispatchDecision::Reject(e) => {
            assert_eq!(e, Error::Socket(String::from("empty message buffer")));
        }
        DispatchDecision::Execute(_) => panic!("an empty read must not execute"),
    }
    let r = dispatcher.handle(b"", &quiet_factory());
    assert_eq!(r, Err(Error::Socket(String::from("empty message buffer"))));
}

#[test]
fn health_check_yields_task_dispatched() {
    let dispatcher = Dispatcher { role: Kind::Server };
    let r = dispatcher.handle(b"\"HealthCheck\"", &quiet_factory());
    assert_eq!(r, Ok(String::from("task dispatched")));
}

#[test]
fn handler_result_string_is_the_response() {
    let dispatcher = Dispatcher { role: Kind::Server };
    let factory = FixedFactory {
        actor: FixedActor { outcome: Ok(Some(String::from("healthy"))) },
    };
    let r = dispatcher.handle(b"\"HealthCheck\"", &factory);
    assert_eq!(r, Ok(String::from("healthy")));
}

#[test]
fn handler_failure_is_reported_as_text() {
    let dispatcher = Dispatcher { role: Kind::Server };
    let factory = FixedFactory {
        actor: FixedActor { outcome: Err(Error::Node(String::from("probe died"))) },
    };
    let r = dispatcher.handle(b"\"HealthCheck\"", &factory);
    assert_eq!(
        r,
        Ok(String::from("error dispatching tasks: node error: probe died"))
    );
}

#[test]
fn malformed_payload_is_the_role_error() {
    let server = Dispatcher { role: Kind::Server };
    assert_eq!(
        server.handle(b"not a task", &quiet_factory()),
        Err(Error::Server(String::from("bad task: unrecognized task shape")))
    );
    let node = Dispatcher { role: Kind::Node };
    assert_eq!(
        node.handle(b"not a task", &quiet_factory()),
        Err(Error::Node(String::from("bad task: unrecognized task shape")))
    );
}

#[test]
fn screened_task_carries_message_and_payload() {
    let dispatcher = Dispatcher { role: Kind::Node };
    match dispatcher.screen(b"{\"Bpf\":{\"fn_name\":\"probe\"}}") {
        DispatchDecision::Execute(task) => {
            assert_eq!(task.message, Message::Bpf { fn_name: String::from("probe") });
            assert_eq!(task.payload, "{\"Bpf\":{\"fn_name\":\"probe\"}}");
        }
        DispatchDecision::Reject(e) => panic!("well-shaped payload rejected: {e:?}"),
    }
}

#[test]
fn compose_response_defaults() {
    let dispatcher = Dispatcher { role: Kind::Server };
    assert_eq!(dispatcher.compose_response(Ok(None)), "task dispatched");
    assert_eq!(
        dispatcher.compose_response(Ok(Some(String::from("done")))),
        "done"
    );
    assert_eq!(
        dispatcher.compose_response(Err(Error::Server(String::from("boom")))),
        "error dispatching tasks: server error: boom"
    );
}
