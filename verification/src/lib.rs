//! Keeps a reserve on one Solana account and sweeps what is above it to another.
//!
//! The library holds the rules of the service and none of its I/O:
//!
//! - [`units`] converts between SOL, as an exact decimal, and lamports;
//! - [`address`] reads and shows account addresses, through the Solana SDK;
//! - [`config`] holds the operator's settings and their defaults;
//! - [`settings`] works out, once, what the sweep runs on;
//! - [`notify`] writes the message that reports a transfer and reads the
//!   reply to it;
//! - [`sweep`] is the cycle itself: it is told what the ledger answered and
//!   says what is to be done next.
//!
//! Every function is verified against its contract. The two calls into the
//! Solana SDK, in [`address`], are taken on trust.

pub mod address;
pub mod config;
pub mod notify;
pub mod settings;
pub mod sweep;
pub mod units;

pub use crate::units::{lamports_to_sol, sol_to_lamports, LAMPORTS_PER_SOL};
