//! The socket lifecycle: what the agent's endpoint path goes through from
//! bind to teardown.
//!
//! Before binding, any existing filesystem entry at the path is treated as
//! a stale artifact of a previous instance — a deliberately weak liveness
//! heuristic, kept as it is — and deleted, then a fresh listener is bound.
//! Teardown removes the path exactly once; a removal failure there is
//! fatal, since the process must not continue holding a dangling path. No
//! retries. The filesystem steps themselves are performed by the caller,
//! which reports each outcome; this component holds the path's state and
//! the rules, so that every run of the caller follows them.

use vstd::prelude::*;
use vstd::string::StringExecFns;

use crate::error::Error;

verus! {

/// The state of an agent's endpoint path: whether some filesystem entry
/// exists at it, and whether this instance holds the bound listener.
pub struct SocketLifecycle {
    pub path: String,
    pub entry_present: bool,
    pub bound: bool,
}

/// The effect of one bind attempt on the path state, and whether it
/// succeeded, given the outcomes of the two filesystem steps: deleting a
/// stale entry (taken only when one is present) and binding the fresh
/// listener.
pub open spec fn spec_bind(
    s: SocketLifecycle,
    removal_ok: bool,
    bind_ok: bool,
) -> (SocketLifecycle, bool) {
    if s.entry_present && !removal_ok {
        (s, false)
    } else if !bind_ok {
        (SocketLifecycle { entry_present: false, ..s }, false)
    } else {
        (SocketLifecycle { entry_present: true, bound: true, ..s }, true)
    }
}

/// The effect of the one teardown on the path state, and whether it
/// succeeded, given the outcome of removing the path.
pub open spec fn spec_teardown(s: SocketLifecycle, removal_ok: bool) -> (SocketLifecycle, bool) {
    if removal_ok {
        (SocketLifecycle { entry_present: false, bound: false, ..s }, true)
    } else {
        (SocketLifecycle { bound: false, ..s }, false)
    }
}

impl SocketLifecycle {
    /// The path as first probed: no listener is held yet.
    pub fn at(path: String, entry_present: bool) -> (s: SocketLifecycle)
        ensures
            s.path == path,
            s.entry_present == entry_present,
            !s.bound,
    {
        SocketLifecycle { path, entry_present, bound: false }
    }

    /// One bind attempt. A pre-existing entry is deleted first, whatever
    /// it is; a deletion failure (permission, busy) or a bind failure
    /// (address in use) is a [`Error::Socket`], and on success the
    /// listener is held and the path is occupied by its socket entry.
    pub fn bind(&mut self, removal_ok: bool, bind_ok: bool) -> (r: Result<(), Error>)
        requires
            !old(self).bound,
        ensures
            (*final(self), r is Ok) == spec_bind(*old(self), removal_ok, bind_ok),
            r is Ok <==> ((!old(self).entry_present || removal_ok) && bind_ok),
            r is Ok ==> final(self).bound && final(self).entry_present,
            (old(self).entry_present && !removal_ok) ==> (r matches Err(e) && e matches
                Error::Socket(t) && t@ == "cannot remove previous socket file"@),
            ((!old(self).entry_present || removal_ok) && !bind_ok) ==> (r matches Err(e) && e
                matches Error::Socket(t) && t@ == "bind failure"@),
            final(self).path == old(self).path,
    {
        if self.entry_present && !removal_ok {
            return Err(Error::Socket(String::from_str("cannot remove previous socket file")));
        }
        self.entry_present = false;
        if !bind_ok {
            return Err(Error::Socket(String::from_str("bind failure")));
        }
        self.entry_present = true;
        self.bound = true;
        Ok(())
    }

    /// The one teardown: the listener is released and the path removed. A
    /// removal failure is a fatal [`Error::Socket`]; either way the
    /// listener is no longer held, so no second teardown can run.
    pub fn teardown(&mut self, removal_ok: bool) -> (r: Result<(), Error>)
        requires
            old(self).bound,
        ensures
            (*final(self), r is Ok) == spec_teardown(*old(self), removal_ok),
            !final(self).bound,
            removal_ok ==> r is Ok && !final(self).entry_present,
            !removal_ok ==> (r matches Err(e) && e matches Error::Socket(t) && t@
                == "cannot remove socket file"@),
            final(self).path == old(self).path,
    {
        self.bound = false;
        if removal_ok {
            self.entry_present = false;
            Ok(())
        } else {
            Err(Error::Socket(String::from_str("cannot remove socket file")))
        }
    }
}

/// Idempotent bind: two binds of the same path in sequence, with no live
/// listener in between, both succeed, whether or not the first instance's
/// socket entry was left behind — a stale entry never blocks the second
/// bind. `removal_ok` and `bind_ok` hold because no live listener is at
/// the path: deletion and bind have nothing to fail on.
pub proof fn law_idempotent_bind(s0: SocketLifecycle, cleanly_torn_down: bool)
    requires
        !s0.bound,
    ensures
        ({
            let (s1, ok1) = spec_bind(s0, true, true);
            let gone = if cleanly_torn_down {
                spec_teardown(s1, true).0
            } else {
                SocketLifecycle { bound: false, ..s1 }
            };
            let (s2, ok2) = spec_bind(gone, true, true);
            ok1 && ok2
        }),
{
}

} // verus!
