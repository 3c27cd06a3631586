//! Core logic of a coinswap Maker: the per-connection protocol state machine,
//! message validators, watchdog decisions, and the recovery engine.
//!
//! Everything that decides — message ordering, script and locktime checks,
//! contract-cache consistency, idle and on-chain triggers, timelock sweeps —
//! lives here with contracts. The surrounding process (sockets, node RPC,
//! threads) drives these functions from outside.

pub mod chain;
pub mod config;
pub mod crypto;
pub mod fidelity;
pub mod framing;
pub mod maker;
pub mod messages;
pub mod protocol;
pub mod recovery;
pub mod script;
pub mod store;
pub mod supervisor;
pub mod swapcoins;
pub mod wallet;
pub mod watchdog;

use vstd::prelude::*;

verus! {

/// Heartbeat cadence of every background loop, in seconds.
pub const HEART_BEAT_INTERVAL_SECS: u64 = 3;

/// Ping interval against the node while the connection is healthy, in seconds.
pub const RPC_PING_INTERVAL_SECS: u64 = 60;

/// A peer silent for strictly longer than this many seconds is dropped.
pub const IDLE_TIMEOUT_SECS: u64 = 60;

/// Minimum gap, in blocks, between this hop's contract locktime and the next.
pub const MIN_CONTRACT_REACTION_TIME: u16 = 48;

/// Confirmations a funding output must have before it is accepted.
pub const REQUIRED_CONFIRMS: u64 = 1;

/// Fee rate per swap amount, in satoshis per billion satoshis swapped.
pub const AMOUNT_RELATIVE_FEE_PPB: u64 = 10_000_000;

} // verus!
