//! Decision logic for attaching a container to a host bridge through a veth
//! pair, and for detaching it again.
//!
//! The library never touches the network itself. It plans an attachment from
//! a network description, then drives the provisioning as a state machine:
//! each state names the one operation to perform next, and the outcome of
//! that operation is handed back to obtain the following state.

pub mod address;
pub mod types;
pub mod naming;
pub mod veth;
pub mod attach;
pub mod detach;
pub mod bridge;
pub mod laws;
