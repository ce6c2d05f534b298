//! A minimal deterministic state-transition runtime in the style of a
//! blockchain node: independent state modules (a ledger, a block/nonce
//! counter, a claim registry) composed under one dispatcher that applies
//! ordered batches of signed operations grouped into blocks.

pub mod balances;
pub mod proof_of_existence;
pub mod runtime;
pub mod support;
pub mod system;
