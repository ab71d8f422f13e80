//! The pipeline's validators, one function per stage: structural checks,
//! interpretation of the account query, the authorization check, the balance
//! comparison, and resolution of contract and package references. Each is
//! synchronous; the asynchronous answers they judge are passed in as values.

use vstd::prelude::*;

use crate::account::{
    key_weight, version_seq_contains, word_seq_contains, Account, StoredValue,
};
use crate::config::DeployConfig;
use crate::deploy::{
    body_digest, body_digest_spec, deploy_size, deploy_size_spec, header_digest,
    header_digest_spec, Approval, Deploy, ExecutableItem, Source,
};
use crate::error::{DeployConfigurationFailure, DeployParameterFailure, Error};

verus! {

/// Turns an optional failure into the result a validator returns.
pub open spec fn as_result(f: Option<Error>) -> Result<(), Error> {
    match f {
        Some(e) => Err(e),
        None => Ok(()),
    }
}

/// Whether every approval's signature covers the deploy's claimed identity.
pub open spec fn approvals_valid(d: Deploy) -> bool {
    forall|i: int| 0 <= i < d.approvals@.len() ==> d.approvals@[i].signed_hash == d.hash
}

/// Whether an item is inline module code with no bytes.
pub open spec fn is_empty_module_bytes(item: ExecutableItem) -> bool {
    match item {
        ExecutableItem::ModuleBytes { module_bytes } => module_bytes@.len() == 0,
        _ => false,
    }
}

/// The first structural failure of a deploy against the limits, if any:
/// identity digest, body digest, approvals, size, time bounds, then the
/// shape of the payment and session logic. This rule set applies uniformly
/// to both origins.
pub open spec fn structural_failure(d: Deploy, cfg: DeployConfig, now: u64) -> Option<Error> {
    if d.hash != header_digest_spec(d.header) {
        Some(Error::InvalidDeployConfiguration(DeployConfigurationFailure::InvalidDeployHash))
    } else if d.header.body_hash != body_digest_spec(d.payment, d.session) {
        Some(Error::InvalidDeployConfiguration(DeployConfigurationFailure::InvalidBodyHash))
    } else if !approvals_valid(d) {
        Some(Error::InvalidDeployConfiguration(DeployConfigurationFailure::InvalidApproval))
    } else if deploy_size_spec(d) > cfg.max_deploy_size {
        Some(Error::InvalidDeployConfiguration(DeployConfigurationFailure::ExcessiveSize))
    } else if d.header.ttl > cfg.max_ttl {
        Some(Error::InvalidDeployConfiguration(DeployConfigurationFailure::ExcessiveTimeToLive))
    } else if d.header.timestamp > now {
        Some(Error::InvalidDeployConfiguration(DeployConfigurationFailure::TimestampInFuture))
    } else if d.payment is Transfer {
        Some(Error::InvalidDeployParameters { failure: DeployParameterFailure::InvalidPaymentVariant })
    } else if is_empty_module_bytes(d.session) {
        Some(Error::InvalidDeployParameters { failure: DeployParameterFailure::MissingModuleBytes })
    } else {
        None
    }
}

/// Runs the synchronous structural checks: no I/O, never suspends. Returns
/// the first failure in checking order, `Ok` exactly when none applies.
pub fn validate_structure(d: &Deploy, cfg: &DeployConfig, now: u64) -> (r: Result<(), Error>)
    ensures
        r == as_result(structural_failure(*d, *cfg, now)),
{
    let computed = header_digest(&d.header);
    if d.hash != computed {
        return Err(Error::InvalidDeployConfiguration(
            DeployConfigurationFailure::InvalidDeployHash,
        ));
    }
    let body = body_digest(&d.payment, &d.session);
    if d.header.body_hash != body {
        return Err(Error::InvalidDeployConfiguration(DeployConfigurationFailure::InvalidBodyHash));
    }
    let mut i: usize = 0;
    while i < d.approvals.len()
        invariant
            i <= d.approvals@.len(),
            d.hash == header_digest_spec(d.header),
            d.header.body_hash == body_digest_spec(d.payment, d.session),
            forall|k: int| 0 <= k < i ==> d.approvals@[k].signed_hash == d.hash,
        decreases d.approvals@.len() - i,
    {
        if d.approvals[i].signed_hash != d.hash {
            proof {
                assert(!approvals_valid(*d)) by {
                    assert(d.approvals@[i as int].signed_hash != d.hash);
                }
            }
            return Err(Error::InvalidDeployConfiguration(
                DeployConfigurationFailure::InvalidApproval,
            ));
        }
        i = i + 1;
    }
    let size = deploy_size(d);
    if size > cfg.max_deploy_size as u128 {
        return Err(Error::InvalidDeployConfiguration(DeployConfigurationFailure::ExcessiveSize));
    }
    if d.header.ttl > cfg.max_ttl {
        return Err(Error::InvalidDeployConfiguration(
            DeployConfigurationFailure::ExcessiveTimeToLive,
        ));
    }
    if d.header.timestamp > now {
        return Err(Error::InvalidDeployConfiguration(
            DeployConfigurationFailure::TimestampInFuture,
        ));
    }
    if matches!(d.payment, ExecutableItem::Transfer) {
        return Err(Error::InvalidDeployParameters {
            failure: DeployParameterFailure::InvalidPaymentVariant,
        });
    }
    if let ExecutableItem::ModuleBytes { module_bytes } = &d.session {
        if module_bytes.len() == 0 {
            return Err(Error::InvalidDeployParameters {
                failure: DeployParameterFailure::MissingModuleBytes,
            });
        }
    }
    Ok(())
}

/// What the account stage decides once the query has answered.
#[derive(Clone, Debug, PartialEq, Eq)]
pub enum AccountStep {
    /// A client deploy whose account resolved: run the economic checks.
    Authorize(Account),
    /// A peer deploy: trusted to have been checked by its origin node, so
    /// no economic checks; go on to contract resolution.
    SkipEconomic,
    /// A client deploy whose account did not resolve: rejected.
    Reject(Error),
}

/// The account stage's decision: a client deploy proceeds to authorization
/// when its account resolved and is rejected with `NonexistentAccount` when
/// it did not; a peer deploy skips the economic checks either way.
pub open spec fn account_step_spec(
    source: Source,
    maybe_account: Option<Account>,
    account_hash: u64,
) -> AccountStep {
    if source is Client {
        match maybe_account {
            Some(account) => AccountStep::Authorize(account),
            None => AccountStep::Reject(
                Error::InvalidDeployParameters {
                    failure: DeployParameterFailure::NonexistentAccount { account_hash },
                },
            ),
        }
    } else {
        AccountStep::SkipEconomic
    }
}

/// Interprets the answer of the account query for a deploy from `source`
/// whose header names the account `account_hash`.
pub fn account_step(
    source: &Source,
    maybe_account: Option<Account>,
    account_hash: u64,
) -> (r: AccountStep)
    ensures
        r == account_step_spec(*source, maybe_account, account_hash),
{
    if source.from_client() {
        match maybe_account {
            Some(account) => AccountStep::Authorize(account),
            None => AccountStep::Reject(
                Error::InvalidDeployParameters {
                    failure: DeployParameterFailure::NonexistentAccount { account_hash },
                },
            ),
        }
    } else {
        AccountStep::SkipEconomic
    }
}

/// Whether every approval's signer is among the account's associated keys.
pub open spec fn all_signers_known(keys: Seq<(u64, u8)>, approvals: Seq<Approval>) -> bool {
    forall|i: int| 0 <= i < approvals.len() ==> key_weight(keys, approvals[i].signer) is Some
}

/// The weight sum the approvals' signers carry in the associated-key set;
/// an unknown signer contributes nothing.
pub open spec fn signer_weight_sum(keys: Seq<(u64, u8)>, approvals: Seq<Approval>) -> int
    decreases approvals.len(),
{
    if approvals.len() == 0 {
        0
    } else {
        (match key_weight(keys, approvals[0].signer) {
            Some(w) => w as int,
            None => 0,
        }) + signer_weight_sum(keys, approvals.drop_first())
    }
}

/// The authorization decision: every signer must be an associated key, and
/// the signers' weight sum must meet the account's deployment threshold.
pub open spec fn authorization_failure(account: Account, d: Deploy) -> Option<Error> {
    if !all_signers_known(account.associated_keys@, d.approvals@) {
        Some(Error::InvalidDeployParameters {
            failure: DeployParameterFailure::InvalidAssociatedKeys,
        })
    } else if signer_weight_sum(account.associated_keys@, d.approvals@)
        < account.action_thresholds.deployment {
        Some(Error::InvalidDeployParameters {
            failure: DeployParameterFailure::InsufficientDeploySignatureWeight,
        })
    } else {
        None
    }
}

/// Checks the resolved account's associated-key set and signature-weight
/// threshold against the deploy's approvals. Synchronous, no I/O.
pub fn check_authorization(account: &Account, d: &Deploy) -> (r: Result<(), Error>)
    ensures
        r == as_result(authorization_failure(*account, *d)),
{
    let ghost keys = account.associated_keys@;
    let ghost approvals = d.approvals@;
    let mut sum: u128 = 0;
    let mut i: usize = 0;
    proof {
        assert(approvals.skip(0) =~= approvals);
    }
    while i < d.approvals.len()
        invariant
            i <= approvals.len(),
            keys == account.associated_keys@,
            approvals == d.approvals@,
            forall|k: int| 0 <= k < i ==> key_weight(keys, approvals[k].signer) is Some,
            sum <= 255 * i,
            sum + signer_weight_sum(keys, approvals.skip(i as int))
                == signer_weight_sum(keys, approvals),
        decreases approvals.len() - i,
    {
        proof {
            assert(approvals.skip(i as int)[0] == approvals[i as int]);
            assert(approvals.skip(i as int).drop_first() =~= approvals.skip(i as int + 1));
        }
        match account.weight_of(d.approvals[i].signer) {
            Some(w) => {
                sum = sum + w as u128;
            },
            None => {
                return Err(Error::InvalidDeployParameters {
                    failure: DeployParameterFailure::InvalidAssociatedKeys,
                });
            },
        }
        i = i + 1;
    }
    proof {
        assert(approvals.skip(approvals.len() as int) =~= Seq::<Approval>::empty());
    }
    if sum < account.action_thresholds.deployment as u128 {
        return Err(Error::InvalidDeployParameters {
            failure: DeployParameterFailure::InsufficientDeploySignatureWeight,
        });
    }
    Ok(())
}

/// The balance decision: an unfindable state root is `UnknownBalance`; a
/// resolved balance below the maximum payment amount is
/// `InsufficientBalance`; a balance meeting it (inclusive) passes.
pub open spec fn balance_failure(maybe_balance: Option<u64>, cfg: DeployConfig) -> Option<Error> {
    match maybe_balance {
        None => Some(Error::InvalidDeployParameters {
            failure: DeployParameterFailure::UnknownBalance,
        }),
        Some(balance) => if balance < cfg.max_payment_amount {
            Some(Error::InvalidDeployParameters {
                failure: DeployParameterFailure::InsufficientBalance { balance },
            })
        } else {
            None
        },
    }
}

/// Judges the purse-balance answer against the maximum payment amount;
/// `None` means the query reported that the state root was not found.
pub fn check_balance(maybe_balance: Option<u64>, cfg: &DeployConfig) -> (r: Result<(), Error>)
    ensures
        r == as_result(balance_failure(maybe_balance, *cfg)),
{
    match maybe_balance {
        None => Err(Error::InvalidDeployParameters {
            failure: DeployParameterFailure::UnknownBalance,
        }),
        Some(balance) => if balance < cfg.max_payment_amount {
            Err(Error::InvalidDeployParameters {
                failure: DeployParameterFailure::InsufficientBalance { balance },
            })
        } else {
            Ok(())
        },
    }
}

/// Whether resolving this item takes a global-state lookup. Inline module
/// bytes and the native transfer pass with none.
pub open spec fn item_lookup_needed(item: ExecutableItem) -> bool {
    !(item is ModuleBytes || item is Transfer)
}

/// The resolution decision for one executable item, given the lookup's
/// answer (`None` both when nothing is stored under the key and when the
/// stored value is of the wrong kind): a referenced contract must exist and
/// expose the named entry point; a referenced package must exist and, when a
/// version is pinned, hold it enabled.
pub open spec fn item_resolution_failure(
    item: ExecutableItem,
    answer: Option<StoredValue>,
) -> Option<Error> {
    match item {
        ExecutableItem::ModuleBytes { .. } => None,
        ExecutableItem::Transfer => None,
        ExecutableItem::StoredContractByHash { hash, entry_point } => match answer {
            Some(StoredValue::Contract(c)) => if word_seq_contains(c.entry_points@, entry_point) {
                None
            } else {
                Some(Error::InvalidDeployParameters {
                    failure: DeployParameterFailure::NonexistentContractEntryPoint { entry_point },
                })
            },
            _ => Some(Error::InvalidDeployParameters {
                failure: DeployParameterFailure::NonexistentContractAtHash { contract_hash: hash },
            }),
        },
        ExecutableItem::StoredContractByName { name, entry_point } => match answer {
            Some(StoredValue::Contract(c)) => if word_seq_contains(c.entry_points@, entry_point) {
                None
            } else {
                Some(Error::InvalidDeployParameters {
                    failure: DeployParameterFailure::NonexistentContractEntryPoint { entry_point },
                })
            },
            _ => Some(Error::InvalidDeployParameters {
                failure: DeployParameterFailure::NonexistentContractAtName { name },
            }),
        },
        ExecutableItem::StoredVersionedContractByHash { hash, version, .. } => match answer {
            Some(StoredValue::ContractPackage(p)) => match version {
                None => None,
                Some(v) => if version_seq_contains(p.enabled_versions@, v) {
                    None
                } else {
                    Some(Error::InvalidDeployParameters {
                        failure: DeployParameterFailure::InvalidContractAtVersion {
                            contract_version: v,
                        },
                    })
                },
            },
            _ => Some(Error::InvalidDeployParameters {
                failure: DeployParameterFailure::NonexistentContractPackageAtHash {
                    package_hash: hash,
                },
            }),
        },
        ExecutableItem::StoredVersionedContractByName { name, version, .. } => match answer {
            Some(StoredValue::ContractPackage(p)) => match version {
                None => None,
                Some(v) => if version_seq_contains(p.enabled_versions@, v) {
                    None
                } else {
                    Some(Error::InvalidDeployParameters {
                        failure: DeployParameterFailure::InvalidContractAtVersion {
                            contract_version: v,
                        },
                    })
                },
            },
            _ => Some(Error::InvalidDeployParameters {
                failure: DeployParameterFailure::NonexistentContractPackageAtName { name },
            }),
        },
    }
}

/// Resolves one executable item against its lookup's answer.
pub fn resolve_item(item: &ExecutableItem, answer: &Option<StoredValue>) -> (r: Result<(), Error>)
    ensures
        r == as_result(item_resolution_failure(*item, *answer)),
{
    match item {
        ExecutableItem::ModuleBytes { .. } => Ok(()),
        ExecutableItem::Transfer => Ok(()),
        ExecutableItem::StoredContractByHash { hash, entry_point } => match answer {
            Some(StoredValue::Contract(c)) => {
                if crate::account::word_vec_contains(&c.entry_points, *entry_point) {
                    Ok(())
                } else {
                    Err(Error::InvalidDeployParameters {
                        failure: DeployParameterFailure::NonexistentContractEntryPoint {
                            entry_point: *entry_point,
                        },
                    })
                }
            },
            _ => Err(Error::InvalidDeployParameters {
                failure: DeployParameterFailure::NonexistentContractAtHash {
                    contract_hash: *hash,
                },
            }),
        },
        ExecutableItem::StoredContractByName { name, entry_point } => match answer {
            Some(StoredValue::Contract(c)) => {
                if crate::account::word_vec_contains(&c.entry_points, *entry_point) {
                    Ok(())
                } else {
                    Err(Error::InvalidDeployParameters {
                        failure: DeployParameterFailure::NonexistentContractEntryPoint {
                            entry_point: *entry_point,
                        },
                    })
                }
            },
            _ => Err(Error::InvalidDeployParameters {
                failure: DeployParameterFailure::NonexistentContractAtName { name: *name },
            }),
        },
        ExecutableItem::StoredVersionedContractByHash { hash, version, .. } => match answer {
            Some(StoredValue::ContractPackage(p)) => match version {
                None => Ok(()),
                Some(v) => {
                    if crate::account::version_vec_contains(&p.enabled_versions, *v) {
                        Ok(())
                    } else {
                        Err(Error::InvalidDeployParameters {
                            failure: DeployParameterFailure::InvalidContractAtVersion {
                                contract_version: *v,
                            },
                        })
                    }
                },
            },
            _ => Err(Error::InvalidDeployParameters {
                failure: DeployParameterFailure::NonexistentContractPackageAtHash {
                    package_hash: *hash,
                },
            }),
        },
        ExecutableItem::StoredVersionedContractByName { name, version, .. } => match answer {
            Some(StoredValue::ContractPackage(p)) => match version {
                None => Ok(()),
                Some(v) => {
                    if crate::account::version_vec_contains(&p.enabled_versions, *v) {
                        Ok(())
                    } else {
                        Err(Error::InvalidDeployParameters {
                            failure: DeployParameterFailure::InvalidContractAtVersion {
                                contract_version: *v,
                            },
                        })
                    }
                },
            },
            _ => Err(Error::InvalidDeployParameters {
                failure: DeployParameterFailure::NonexistentContractPackageAtName { name: *name },
            }),
        },
    }
}

} // verus!
