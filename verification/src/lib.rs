//! kaphd: a minimal cluster control plane.
//!
//! Agents run as a Server (control plane) or a Node (worker) and exchange
//! work items over local interprocess sockets. This crate holds the verified
//! core of the agent runtime: the wire codec for tasks, the per-connection
//! dispatch rules, the graceful-shutdown drain coordinator, the agent
//! lifecycle state machine, the socket path lifecycle, and the registry of
//! delegated tasks. The process entry point, socket I/O and configuration
//! loading live outside the library and drive these components through
//! their contracts.

pub mod error;

pub mod message;

pub mod codec;

pub mod drain;

pub mod lifecycle;

pub mod agent;

pub mod dispatch;

pub mod registry;

pub mod cluster;

pub mod logger;

pub mod cli;
