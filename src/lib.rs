//! Proof-of-work consensus core of a block-producing node: the seal
//! algorithm, the block import filter, the mining cycle and the decisions
//! taken when the node's services are put together.

pub mod seal;
pub mod import;
pub mod mining;
pub mod service;
