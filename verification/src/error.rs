//! The failure taxonomy of the agent runtime.

use vstd::prelude::*;
use vstd::string::StringExecFns;

verus! {

/// Every failure the runtime reports.
///
/// `Socket` covers bind, read, write and cleanup failures; `Server` and
/// `Node` cover dispatch-level failures on the respective role; `Config`
/// covers violated topology constraints, fatal before any socket binds;
/// `Lock` is reserved and raised by no path here.
#[derive(Clone, Debug, PartialEq, Eq)]
pub enum Error {
    Config(String),
    Lock(String),
    Node(String),
    Server(String),
    Socket(String),
}

/// The rendered text of an error, as it is reported to a caller.
pub open spec fn spec_message(e: Error) -> Seq<char> {
    match e {
        Error::Config(s) => "config error: "@ + s@,
        Error::Lock(s) => "lock error: "@ + s@,
        Error::Node(s) => "node error: "@ + s@,
        Error::Server(s) => "server error: "@ + s@,
        Error::Socket(s) => "socket error: "@ + s@,
    }
}

impl Error {
    /// The detail string carried by the error.
    pub open spec fn detail(self) -> Seq<char> {
        match self {
            Error::Config(s) => s@,
            Error::Lock(s) => s@,
            Error::Node(s) => s@,
            Error::Server(s) => s@,
            Error::Socket(s) => s@,
        }
    }

    /// Renders the error as the text a caller sees.
    pub fn message(&self) -> (r: String)
        ensures
            r@ == spec_message(*self),
    {
        match self {
            Error::Config(s) => String::from_str("config error: ").concat(s.as_str()),
            Error::Lock(s) => String::from_str("lock error: ").concat(s.as_str()),
            Error::Node(s) => String::from_str("node error: ").concat(s.as_str()),
            Error::Server(s) => String::from_str("server error: ").concat(s.as_str()),
            Error::Socket(s) => String::from_str("socket error: ").concat(s.as_str()),
        }
    }
}

} // verus!
