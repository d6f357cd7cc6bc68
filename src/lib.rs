//! A single-child IPC primitive: the parent spawns one process and talks to it
//! over a private channel named by a rendezvous token that travels in the
//! child's environment.
//!
//! This crate holds the decisions of that protocol: how tokens are named, how
//! the platform handshakes proceed, when a handle may still talk to its child,
//! and how received bytes become text or JSON. The operating-system work
//! (processes, sockets, pipes) is performed by the caller, which feeds the
//! outcomes back in.
//!
//! Beside it stand the decisions of the editor extension that launches the
//! language server: whether its package must be installed or updated.
use vstd::prelude::*;

pub mod config;
pub mod error;
pub mod handshake;
pub mod install;
pub mod liveness;
pub mod message;
pub mod text;
pub mod token;

pub use error::IpcError;
