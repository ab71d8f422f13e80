//! Immutable configuration loaded at startup: the chain's economic and
//! structural limits, and whether account balances are verified at all.

use vstd::prelude::*;

verus! {

/// Protocol-level limits from the chain specification. Pure data.
#[derive(Clone, Copy, Debug, PartialEq, Eq, Structural)]
pub struct DeployConfig {
    /// A client account must hold at least this much to be admitted.
    pub max_payment_amount: u64,
    /// Ceiling on the serialized size of a deploy, in bytes.
    pub max_deploy_size: u64,
    /// Ceiling on a deploy's time-to-live.
    pub max_ttl: u64,
}

/// The acceptor's own configuration.
#[derive(Clone, Copy, Debug, PartialEq, Eq, Structural)]
pub struct Config {
    /// Whether the balance of a client account is verified.
    pub verify_accounts: bool,
}

impl Config {
    /// Creates the acceptor configuration.
    pub fn new(verify_accounts: bool) -> (r: Config)
        ensures
            r.verify_accounts == verify_accounts,
    {
        Config { verify_accounts }
    }
}

} // verus!
