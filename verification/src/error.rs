//! The closed failure taxonomy of the admission pipeline. Every failure is
//! terminal for its submission and is surfaced both as an announcement and,
//! when a caller waits, as the returned error.

use vstd::prelude::*;

verus! {

/// A failure of the synchronous structural checks against the chain's
/// configured limits.
#[derive(Clone, Copy, Debug, PartialEq, Eq, Structural)]
pub enum DeployConfigurationFailure {
    /// The recomputed header digest differs from the claimed identity.
    InvalidDeployHash,
    /// The recomputed body digest differs from the header's body hash.
    InvalidBodyHash,
    /// Some approval's signature does not cover the deploy's hash.
    InvalidApproval,
    /// The serialized deploy exceeds the configured size ceiling.
    ExcessiveSize,
    /// The header's time-to-live exceeds the configured bound.
    ExcessiveTimeToLive,
    /// The header's timestamp lies in the future.
    TimestampInFuture,
}

/// A failure of the economic or resolution checks on a deploy's parameters.
#[derive(Clone, Copy, Debug, PartialEq, Eq, Structural)]
pub enum DeployParameterFailure {
    /// The paying account does not exist in global state.
    NonexistentAccount { account_hash: u64 },
    /// Some signing key is not among the account's associated keys.
    InvalidAssociatedKeys,
    /// The signers' weight sum is below the deployment threshold.
    InsufficientDeploySignatureWeight,
    /// The main purse holds less than the maximum payment amount.
    InsufficientBalance { balance: u64 },
    /// The balance query could not find the state root.
    UnknownBalance,
    /// No contract is stored under the referenced hash.
    NonexistentContractAtHash { contract_hash: u64 },
    /// No contract is stored under the referenced named key.
    NonexistentContractAtName { name: u64 },
    /// The referenced contract lacks the named entry point.
    NonexistentContractEntryPoint { entry_point: u64 },
    /// No contract package is stored under the referenced hash.
    NonexistentContractPackageAtHash { package_hash: u64 },
    /// No contract package is stored under the referenced named key.
    NonexistentContractPackageAtName { name: u64 },
    /// The referenced package lacks the pinned, enabled version.
    InvalidContractAtVersion { contract_version: u32 },
    /// The session logic is empty module bytes.
    MissingModuleBytes,
    /// The payment logic is a native transfer.
    InvalidPaymentVariant,
}

/// The error returned to a waiting caller when a deploy is rejected.
#[derive(Clone, Copy, Debug, PartialEq, Eq, Structural)]
pub enum Error {
    /// A structural check against the configured limits failed.
    InvalidDeployConfiguration(DeployConfigurationFailure),
    /// An economic or resolution check on the deploy's parameters failed.
    InvalidDeployParameters { failure: DeployParameterFailure },
}

} // verus!
