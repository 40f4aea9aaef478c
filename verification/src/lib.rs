//! Inventory and rental lifecycle tracking.
//!
//! Items can be listed by their owners, rented out against a deposit with a
//! due date, returned, and queried.  All state is owned by a single
//! [`state::InventoryContract`] value; the host environment that persists the
//! state, authenticates callers and supplies the current time is a
//! collaborator outside this crate.  Every operation of the state machine is
//! verified: its contract pins the result and the successor state for every
//! input, and the crate's laws relate the operations to each other.

pub mod entities;
pub mod index;
pub mod laws;
pub mod state;
