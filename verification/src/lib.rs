//! Confidential VM launch orchestration.
//!
//! This library sequences the launch of a confidential virtual machine:
//! assembling an immutable launch configuration, negotiating a launch
//! session (locally against a cached certificate chain, or through a
//! remote attestation broker), driving the configure / boot / measure /
//! attest / inject state machine, and deciding when tenant secrets may
//! be released into the guest.
//!
//! All I/O (the VM control channel, the broker network calls, the
//! filesystem) is performed by the surrounding program; this crate holds
//! the decisions: which request to issue next, in which order, and how
//! each response advances or aborts the launch attempt.

pub mod args;
pub mod config;
pub mod orchestrator;
pub mod session;
