//! A ledger of polls. An owner creates a poll and adds its candidates, everyone
//! else may cast one vote in it, and the owner closes it to show the results.
//!
//! The ledger is a value, [`state::Ledger`], and each command is a function that
//! changes it or refuses and leaves it alone ([`contract`]). What a command does is
//! stated over the mathematical value of the ledger ([`model`]); what follows of
//! every sequence of commands is proved in [`laws`]. Timestamps are written by the
//! `time` crate ([`clock`]).

pub mod clock;
pub mod contract;
pub mod error;
pub mod laws;
pub mod model;
pub mod msg;
pub mod state;
