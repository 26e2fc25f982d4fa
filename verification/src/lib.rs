//! Core of a multi-port TCP tripwire.
//!
//! The crate holds the verified logic of the tripwire: classifying the first
//! bytes a peer sends as a probable reconnaissance scan or ordinary traffic,
//! deciding how a connection handler reacts to each read outcome, and
//! tracking the lifecycle of a pool of port listeners under a single
//! shutdown signal. The sockets themselves, the signal handler and the audit
//! file live outside the library and consume its decisions.

pub mod classifier;
pub mod handler;
pub mod supervisor;
