//! Admission control for submitted transactions ("deploys") of a blockchain
//! node: before a deploy enters the node's durable pool it passes a staged
//! validity check — structural checks, account resolution, authorization,
//! balance, and contract resolution — and the decision is announced.

pub mod acceptor;
pub mod account;
pub mod config;
pub mod deploy;
pub mod era_id;
pub mod error;
pub mod laws;
pub mod scenario;
pub mod storage;
pub mod validation;
