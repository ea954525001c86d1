//! Link bring-up and heartbeat control for a wireless endpoint.
//!
//! The endpoint joins an access point, waits for an address, resolves its
//! peer once and then sends a fixed datagram every period while blinking two
//! indicators. This crate holds the decisions of that flow as a state machine
//! from events to actions; the firmware around it performs the actions.

pub mod types;
pub mod netsetup;
pub mod diag;
pub mod machine;
pub mod link;
pub mod address;
pub mod resolver;
pub mod heartbeat;
pub mod trace;
pub mod laws;
