//! Topology resolution: from loaded member lists to the cluster that is
//! started.
//!
//! The configuration itself is an external collaborator: whatever loads
//! it hands the member lists over as plain values. Resolution enforces the
//! one topology constraint — at most a single server — and fills the
//! defaults: an absent list falls back to one default member, and a member
//! without a socket path gets the path derived from its name. Only the
//! first member of a given list is taken up.

use vstd::prelude::*;
use vstd::string::StringExecFns;

use crate::agent::{default_socket_path, spec_default_socket_path, Kind, Opts};
use crate::error::Error;

verus! {

/// The resolved topology: the leading server and the configured members.
#[derive(Clone, Debug, PartialEq, Eq)]
pub struct Cluster {
    pub leader: Opts,
    pub servers: Vec<Opts>,
    pub nodes: Vec<Opts>,
}

/// The endpoint path derived from a member's name.
pub open spec fn spec_member_socket_path(name: Seq<char>) -> Seq<char> {
    "/tmp/kaphd-"@ + name + ".sock"@
}

/// Computes [`spec_member_socket_path`] of a member's name.
pub fn member_socket_path(name: &String) -> (r: String)
    ensures
        r@ == spec_member_socket_path(name@),
{
    String::from_str("/tmp/kaphd-").concat(name.as_str()).concat(".sock")
}

/// The member standing in when no server is configured.
pub open spec fn is_default_leader(o: Opts) -> bool {
    &&& o.name@ == "server-1"@
    &&& o.kind is Server
    &&& (o.socket_path matches Some(p) && p@ == spec_default_socket_path(Kind::Server))
    &&& o.join is None
}

/// The member standing in when no node is configured.
pub open spec fn is_default_node(o: Opts) -> bool {
    &&& o.name@ == "node-1"@
    &&& o.kind is Node
    &&& (o.socket_path matches Some(p) && p@ == spec_default_socket_path(Kind::Node))
    &&& o.join is None
}

/// How a resolved member relates to the configured one: the same, except
/// that an absent socket path became the path derived from the name.
pub open spec fn path_defaulted_from(r: Opts, o: Opts) -> bool {
    &&& r.name == o.name
    &&& r.kind == o.kind
    &&& r.join == o.join
    &&& (o.socket_path is Some ==> r.socket_path == o.socket_path)
    &&& (o.socket_path is None ==> (r.socket_path matches Some(p) && p@
        == spec_member_socket_path(o.name@)))
}

/// The default leading server.
fn default_leader() -> (o: Opts)
    ensures
        is_default_leader(o),
{
    Opts {
        name: String::from_str("server-1"),
        kind: Kind::Server,
        socket_path: Some(default_socket_path(Kind::Server)),
        join: None,
    }
}

/// The default node member.
fn default_node() -> (o: Opts)
    ensures
        is_default_node(o),
{
    Opts {
        name: String::from_str("node-1"),
        kind: Kind::Node,
        socket_path: Some(default_socket_path(Kind::Node)),
        join: None,
    }
}

/// A member as resolved: its socket path, if absent, becomes the path
/// derived from its name.
fn defaulted_member(o: Opts) -> (r: Opts)
    ensures
        path_defaulted_from(r, o),
{
    if o.socket_path.is_none() {
        let path = member_socket_path(&o.name);
        Opts { socket_path: Some(path), ..o }
    } else {
        o
    }
}

impl Cluster {
    /// Resolves the loaded member lists. More than one configured server
    /// is rejected: only single-server mode is supported. A list that is
    /// given must carry at least one member — the caller rejects an empty
    /// one before resolution.
    pub fn from_members(servers: Option<Vec<Opts>>, nodes: Option<Vec<Opts>>) -> (r: Result<
        Cluster,
        Error,
    >)
        requires
            servers matches Some(v) ==> v@.len() >= 1,
            nodes matches Some(v) ==> v@.len() >= 1,
        ensures
            (servers matches Some(v) && v@.len() > 1) ==> (r matches Err(e) && e matches
                Error::Config(t) && t@ == "only single server mode is supported at this time"@),
            !(servers matches Some(v) && v@.len() > 1) ==> (r matches Ok(c) && {
                &&& is_default_leader(c.leader)
                &&& c.servers@.len() == 1
                &&& (match servers {
                    Some(v) => path_defaulted_from(c.servers@[0], v@[0]),
                    None => is_default_leader(c.servers@[0]),
                })
                &&& c.nodes@.len() == 1
                &&& (match nodes {
                    Some(v) => path_defaulted_from(c.nodes@[0], v@[0]),
                    None => is_default_node(c.nodes@[0]),
                })
            }),
    {
        if let Some(v) = &servers {
            if v.len() > 1 {
                return Err(
                    Error::Config(
                        String::from_str("only single server mode is supported at this time"),
                    ),
                );
            }
        }
        let server_member = match servers {
            None => default_leader(),
            Some(mut v) => {
                let first = v.remove(0);
                defaulted_member(first)
            }
        };
        let node_member = match nodes {
            None => default_node(),
            Some(mut v) => {
                let first = v.remove(0);
                defaulted_member(first)
            }
        };
        let mut server_members: Vec<Opts> = Vec::new();
        server_members.push(server_member);
        let mut node_members: Vec<Opts> = Vec::new();
        node_members.push(node_member);
        Ok(Cluster { leader: default_leader(), servers: server_members, nodes: node_members })
    }
}

} // verus!
