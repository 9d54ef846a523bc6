//! Rules of a time-boxed token-launch vault: configuration, per-depositor
//! ledgers, price escalation and merkle-proved whitelist membership.

pub mod errors;
pub mod instructions;
pub mod state;
pub mod utils;
