//! State reconciliation engine of a device debloater.
//!
//! The crate holds the decisions of the application: which device stays
//! selected when the list of reachable devices changes, which settings a
//! device gets, how a batch of device commands is counted down until it has
//! drained, and how a selection spreads over the users of a device. It does
//! no input or output. Every handler takes the state and one event, and
//! answers with the requests that the caller has to carry out; their
//! results come back as further events.

pub mod batch;
pub mod config;
pub mod device;
pub mod effect;
pub mod gui;
pub mod packages;
pub mod release;
