//! Escrow lifecycle controller for two-party job payments.
//!
//! A hirer places funds in custody against a job; the funds are later released
//! to the freelancer, split by an arbitrator after a dispute, or refunded.
//! Every rule on who may trigger which transition, and on the fund movement
//! each transition causes, is stated as a contract and proved.

pub mod identity;
pub mod error;
pub mod transfer;
pub mod escrow;
pub mod events;
pub mod context;
pub mod authorization;
pub mod controller;
pub mod lifecycle;
pub mod laws;
