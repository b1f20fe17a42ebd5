//! Instrumentation options: which log format to use and how verbose to be.
//! The logging machinery itself is an external collaborator; the library
//! only resolves these options.

use vstd::prelude::*;
use vstd::string::StringExecFns;

verus! {

/// The log output format.
#[derive(Clone, Copy, Debug, PartialEq, Eq, Structural)]
pub enum Logger {
    Json,
    Pretty,
    Terse,
    Verbose,
}

impl Default for Logger {
    /// The terse format, unless another is asked for.
    fn default() -> (r: Logger)
        ensures
            r is Terse,
    {
        Logger::Terse
    }
}

/// The name of a log format.
pub open spec fn spec_label(l: Logger) -> Seq<char> {
    match l {
        Logger::Json => "json"@,
        Logger::Pretty => "pretty"@,
        Logger::Terse => "terse"@,
        Logger::Verbose => "verbose"@,
    }
}

impl Logger {
    /// The format's name, as shown and as parsed.
    pub fn label(&self) -> (r: String)
        ensures
            r@ == spec_label(*self),
    {
        match self {
            Logger::Json => String::from_str("json"),
            Logger::Pretty => String::from_str("pretty"),
            Logger::Terse => String::from_str("terse"),
            Logger::Verbose => String::from_str("verbose"),
        }
    }
}

/// The instrumentation options an agent runs under.
#[derive(Clone, Copy, Debug, PartialEq, Eq, Structural)]
pub struct Instrumentation {
    pub verbose: u8,
    pub logger: Logger,
}

impl Instrumentation {
    /// The log level the verbosity selects: debug logs at one step up,
    /// trace logs from two up.
    pub fn log_level(&self) -> (r: String)
        ensures
            self.verbose == 0 ==> r@ == "info"@,
            self.verbose == 1 ==> r@ == "debug"@,
            self.verbose >= 2 ==> r@ == "trace"@,
    {
        match self.verbose {
            0 => String::from_str("info"),
            1 => String::from_str("debug"),
            _ => String::from_str("trace"),
        }
    }

    /// The filter expression to fall back to when the environment sets
    /// none: this crate's events at the selected level — or nothing at
    /// all when explicit directives are given anyway.
    pub fn fallback_filter(&self, have_directives: bool) -> (r: String)
        ensures
            have_directives ==> r@ == Seq::<char>::empty(),
            !have_directives ==> {
                &&& (self.verbose == 0 ==> r@ == "kaphd=info"@)
                &&& (self.verbose == 1 ==> r@ == "kaphd=debug"@)
                &&& (self.verbose >= 2 ==> r@ == "kaphd=trace"@)
            },
    {
        if have_directives {
            String::new()
        } else {
            let r = String::from_str("kaphd=").concat(self.log_level().as_str());
            proof {
                reveal_strlit("kaphd=");
                reveal_strlit("info");
                reveal_strlit("debug");
                reveal_strlit("trace");
                reveal_strlit("kaphd=info");
                reveal_strlit("kaphd=debug");
                reveal_strlit("kaphd=trace");
                if self.verbose == 0 {
                    assert(r@ =~= "kaphd=info"@);
                } else if self.verbose == 1 {
                    assert(r@ =~= "kaphd=debug"@);
                } else {
                    assert(r@ =~= "kaphd=trace"@);
                }
            }
            r
        }
    }
}

} // verus!
