//! What the command line resolves to. Parsing it is an external
//! collaborator's job; the library only holds the resolved values and
//! their defaults.

use vstd::prelude::*;
use vstd::string::StringExecFns;

verus! {

/// The arguments of a start command.
#[derive(Clone, Debug, PartialEq, Eq)]
pub struct Args {
    pub config: Option<String>,
}

/// The commands the process takes.
#[derive(Clone, Debug, PartialEq, Eq)]
pub enum Commands {
    Start(Args),
}

impl Args {
    /// The configuration path to load: as given, or `config.toml`.
    pub fn config_path(self) -> (r: String)
        ensures
            self.config matches Some(p) ==> r == p,
            self.config is None ==> r@ == "config.toml"@,
    {
        match self.config {
            Some(p) => p,
            None => String::from_str("config.toml"),
        }
    }
}

} // verus!
