//! Discovery, authentication and control of ASIC mining appliances.
//!
//! The library holds the decisions: which vendor a host runs (the probe
//! state machine in [`detect`]), how cached values are filled and
//! invalidated ([`cache`]), when a session token is reused or refreshed
//! ([`session`]), and how device logs become a set of classified faults
//! ([`classify`], [`rules`]). The caller performs the network exchanges that
//! these decisions ask for.

pub mod antminer;
pub mod avalon;
pub mod cache;
pub mod classify;
pub mod config;
pub mod detect;
pub mod error;
pub mod miner;
pub mod minerva;
pub mod rules;
pub mod session;
pub mod text;
pub mod vnish;
pub mod whatsminer;

pub use config::ClientBuilder;
pub use error::Error;
pub use miner::{ErrorType, MinerError, Pool};
