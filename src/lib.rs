//! Settlement core of a three-slot referral matrix: deposit valuation, the
//! per-node slot state machine, the per-slot settlement effects and the
//! bounded cascade through a node's ancestors.
pub mod key;
pub mod accounts;
pub mod chain;
pub mod token_data;
pub mod valuation;
pub mod addresses;
pub mod settlement;
pub mod cascade;
pub mod registration;
pub mod laws;
pub mod decimal;
