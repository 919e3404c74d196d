//! A ledger of donors and of the rewards they are owed, with the decisions of
//! the two payout flows: issuing a collectible, and transferring a token
//! balance after making sure the recipient is registered to hold it.
//!
//! The library decides and records; it calls no contract and reads no
//! environment. Who calls, what was attached and what time it is are
//! arguments. A flow is a chain of decisions: an entry point of
//! [`DonorPayouts`] returns the [`GatewayCall`] to submit, and the
//! continuation that the call names takes its [`Outcome`] and returns the next
//! call or settles the ledger.
//!
//! - [`types`]: donors, reward events and their kinds, with their views;
//! - [`model`]: the ledger as a mathematical value, and each operation as a
//!   function on it;
//! - [`ledger`]: the ledger itself and the operations that record
//!   contributions;
//! - [`flow`] and [`saga`]: the calls of the two flows, and their entry
//!   points and continuations;
//! - [`queries`]: pages and totals;
//! - [`classify`]: validation of contribution categories;
//! - [`laws`]: what holds of every operation, proved from [`lemmas`] and
//!   [`consistency`];
//! - [`host`]: the calls into other crates, whose contracts are believed.

pub mod classify;
pub mod consistency;
pub mod error;
pub mod flow;
pub mod host;
pub mod laws;
pub mod ledger;
pub mod lemmas;
pub mod model;
pub mod queries;
pub mod saga;
pub mod types;

pub use crate::error::{ErrorKind, PayoutError};
pub use crate::flow::{GatewayCall, Outcome, Settlement, REGISTRATION_COST};
pub use crate::ledger::DonorPayouts;
pub use crate::types::{
    AirdropRecord, DonationType, Donor, PaginatedAirdropRecords, PaginatedDonors, RewardType,
};
