//! Access-control engine for removable USB peripherals.
//!
//! The crate keeps an in-memory registry of trusted device identities,
//! classifies enumerated devices against it, and computes the exact
//! per-device and system-wide policy actions a host platform must carry
//! out to enforce the blocking policy.  Everything that touches the
//! platform itself (USB enumeration, device property changes, the policy
//! store, service control) is performed by the surrounding application;
//! this crate decides, and its decisions are verified.

pub mod control;
pub mod device;
pub mod identity;
pub mod matching;
pub mod numtext;
pub mod policy;
pub mod ports;
pub mod registry;
pub mod service;
