//! Keeps a set of wallets, derived from one secret phrase, funded from a
//! treasury wallet, and sweeps their funds back on demand.
//!
//! The library decides; it does not talk to a ledger. A [`run::Run`] says
//! which balance to ask for, which transfer to submit or how long to sleep,
//! and takes what came of it. Its caller owns the connection.
//!
//! - [`deriver`]: from the phrase and an index to the account of a child.
//! - [`transfer`]: the guard that lets no transfer pass that the source
//!   cannot pay.
//! - [`reclaim`]: the rounded share of a balance that is swept back.
//! - [`modes`]: the three modes, and what each wants for one child.
//! - [`run`]: a mode's run over all children, event by event.
//! - [`laws`], [`passes`]: what is proved of every run.

pub mod account;
pub mod deriver;
pub mod error;
pub mod laws;
pub mod modes;
pub mod passes;
pub mod path;
pub mod reclaim;
pub mod run;
pub mod text;
pub mod transfer;
