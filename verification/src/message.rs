//! Wire messages and decoded tasks.

use vstd::prelude::*;

verus! {

/// A unit of requested work, as the tagged union carried on the wire:
/// a program install (`Bpf`), a health probe, or a workload launch.
#[derive(Clone, Debug, PartialEq, Eq)]
pub enum Message {
    Bpf { fn_name: String },
    HealthCheck,
    Workload { name: String, dataset: String },
}

/// The mathematical shape of a [`Message`]: the same union over
/// character sequences.
pub ghost enum MessageModel {
    Bpf { fn_name: Seq<char> },
    HealthCheck,
    Workload { name: Seq<char>, dataset: Seq<char> },
}

impl View for Message {
    type V = MessageModel;

    open spec fn view(&self) -> MessageModel {
        match self {
            Message::Bpf { fn_name } => MessageModel::Bpf { fn_name: fn_name@ },
            Message::HealthCheck => MessageModel::HealthCheck,
            Message::Workload { name, dataset } => MessageModel::Workload {
                name: name@,
                dataset: dataset@,
            },
        }
    }
}

/// A decoded task: the message union plus the raw wire payload it was
/// decoded from. Immutable after decode.
#[derive(Clone, Debug, PartialEq, Eq)]
pub struct Task {
    pub message: Message,
    pub payload: String,
}

} // verus!
