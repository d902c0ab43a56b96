//! Settlement core of a trade-finance platform: escrows backed by locked
//! collateral, loans issued against them, and the oracle confirmations that
//! the release of funds waits for.
//!
//! Every component is a plain value with explicit transitions. A transition
//! takes what the ledger would supply (the authorising address, the current
//! time, the answers of other contracts) and returns the new state together
//! with the effects to carry out: token transfers, collateral calls, events.
//!
//! On the ledger: [`escrow`], [`loan`], [`oracle`] and [`collateral`], with
//! the arithmetic of the governance contract in [`vault`]. Off the ledger:
//! the decisions of the event indexer in [`indexer`] and [`events`], what
//! is asked of a submitted oracle payload in [`oracle_service`], and who may
//! use the webhook in [`webhook`]. Shared:
//! [`address`], [`arith`], [`confirmation`], and the outside primitives in
//! [`digest`].

pub mod address;
pub mod arith;
pub mod collateral;
pub mod config;
pub mod confirmation;
pub mod digest;
pub mod escrow;
pub mod events;
pub mod indexer;
pub mod loan;
pub mod models;
pub mod oracle;
pub mod oracle_service;
pub mod vault;
pub mod webhook;
