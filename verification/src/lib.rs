//! Cross-platform local inter-process communication, modelled and verified.
//!
//! One listener/connection surface covers both platform transports: Unix
//! domain sockets (access controlled through permission bits) and Windows
//! named pipes (access controlled through a discretionary-ACL object chain).
//! The platform-independent decisions — which permission bits to apply, what
//! the ACL chain contains, when a connect attempt is retried, how a pipe
//! instance is replaced, when the bound socket path is cleaned up — live here
//! as verified code on plain values; the host process drives the actual OS
//! calls from those decisions.

pub mod error;
pub mod path;
pub mod unix;
pub mod win;
