//! A small federated-governance library: a local organization keeps a
//! membership list, opens proposals (direct contract calls or cross-chain
//! messages), collects votes, and in the weighted variant tallies
//! token-weighted prevotes before forwarding one consolidated decision to a
//! parent governance system.
//!
//! Ambient context (the calling account, the current block counter) is passed
//! explicitly into every operation; the parent governance system and the token
//! ledger are capability interfaces handed in by the caller.

pub mod basic;
pub mod calls;
pub mod cross_chain;
pub mod direct;
pub mod errors;
pub mod ledger;
pub mod membership;
pub mod types;
pub mod upstream;
pub mod weighted;
