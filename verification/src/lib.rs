//! A membership roster for a smart-contract module.
//!
//! Addresses register with a username and an introduction, may remove
//! themselves again, and anyone may read the administrators and the members.
//! The handlers are total functions from the persisted [`state::State`] and a
//! request to the next state and a result; the storage engine, the wire format
//! and the address validator stay with the host.

pub mod constants;
pub mod contract;
pub mod contract_execute;
pub mod contract_instantiate;
pub mod contract_query;
pub mod error;
pub mod msg;
pub mod response;
pub mod state;
