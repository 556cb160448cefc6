//! Client-side orchestration of a virtual machine and its containers.
//!
//! The library holds the decisions: which request to send next, how each
//! peer's status is read, how a disk is sized, where a disk export may be
//! written. The caller owns the bus connection, performs each requested call
//! and hands the reply back.

pub mod backend;
pub mod disk;
pub mod error;
pub mod export;
pub mod replies;
pub mod session;
pub mod signal;
pub mod status;
