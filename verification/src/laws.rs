//! The pipeline's guarantees, stated and proved over the same specification
//! functions its contracts use.

use vstd::prelude::*;

use crate::acceptor::{
    effects_spec, expected_announcement, expected_queries, expected_result, item_phase,
    AcceptorEvent, Announcement, Query, StateOracle,
};
use crate::account::{word_seq_contains, Account, Contract, StoredValue};
use crate::config::{Config, DeployConfig};
use crate::deploy::{Deploy, ExecutableItem, Source};
use crate::error::{DeployParameterFailure, Error};
use crate::storage::Storage;
use crate::validation::{
    all_signers_known, authorization_failure, balance_failure, item_resolution_failure,
    signer_weight_sum, structural_failure,
};

verus! {

/// A structurally invalid deploy is rejected with its structural failure
/// before any asynchronous query is issued, whatever its origin.
pub proof fn structurally_invalid_rejects_before_queries(
    d: Deploy,
    source: Source,
    cfg: Config,
    dcfg: DeployConfig,
    now: u64,
    oracle: StateOracle,
)
    requires
        structural_failure(d, dcfg, now) is Some,
    ensures
        expected_result(d, source, cfg, dcfg, now, oracle) == Err::<(), Error>(
            structural_failure(d, dcfg, now).unwrap(),
        ),
        expected_queries(d, source, cfg, dcfg, now, oracle) =~= Seq::<Query>::empty(),
{
}

/// A client deploy that passes every check is accepted: no structural
/// failure, a resolved account that authorizes it, a sufficient balance and
/// resolvable item references give `Ok`. (`process_deploy` then guarantees
/// the deploy is retrievable from storage under its hash.)
pub proof fn valid_client_deploy_is_accepted(
    d: Deploy,
    cfg: Config,
    dcfg: DeployConfig,
    now: u64,
    oracle: StateOracle,
    a: Account,
)
    requires
        structural_failure(d, dcfg, now) is None,
        oracle.maybe_account == Some(a),
        authorization_failure(a, d) is None,
        balance_failure(oracle.maybe_balance, dcfg) is None,
        item_resolution_failure(d.payment, oracle.payment_value) is None,
        item_resolution_failure(d.session, oracle.session_value) is None,
    ensures
        expected_result(d, Source::Client, cfg, dcfg, now, oracle) == Ok::<(), Error>(()),
{
}

/// A successful submission of an already stored deploy reports only the
/// storage result with `is_new == false` and does not announce a new
/// acceptance.
pub proof fn resubmission_is_not_reannounced(d: Deploy, source: Source, st: Storage)
    requires
        st.contains_deploy(d.hash),
    ensures
        expected_announcement(d, source, Ok(()), st.contains_deploy(d.hash))
            == (Announcement::PutToStorageResult { deploy_hash: d.hash, is_new: false }),
        !(expected_announcement(d, source, Ok(()), st.contains_deploy(d.hash))
            is AcceptedNewDeploy),
{
}

/// When the paying account does not resolve, a client deploy is rejected
/// with exactly `NonexistentAccount`, while a peer deploy proceeds past the
/// account stage with no economic checks: its decision is the resolution
/// stage's, and no balance query is issued.
pub proof fn unresolved_account_outcomes(
    d: Deploy,
    peer: u64,
    cfg: Config,
    dcfg: DeployConfig,
    now: u64,
    oracle: StateOracle,
)
    requires
        structural_failure(d, dcfg, now) is None,
        oracle.maybe_account is None,
    ensures
        expected_result(d, Source::Client, cfg, dcfg, now, oracle) == Err::<(), Error>(
            Error::InvalidDeployParameters {
                failure: DeployParameterFailure::NonexistentAccount {
                    account_hash: d.header.account,
                },
            },
        ),
        expected_result(d, Source::Peer(peer), cfg, dcfg, now, oracle) == item_phase(d, oracle).0,
        expected_queries(d, Source::Peer(peer), cfg, dcfg, now, oracle) =~= seq![
            Query::GetAccount { account_hash: d.header.account },
        ] + item_phase(d, oracle).1,
{
}

/// A client deploy whose signers are all known but whose weight sum is
/// below the deployment threshold is rejected with exactly
/// `InsufficientDeploySignatureWeight` — never a balance-related kind, and
/// before any balance query is issued.
pub proof fn insufficient_weight_rejects_before_balance(
    d: Deploy,
    cfg: Config,
    dcfg: DeployConfig,
    now: u64,
    oracle: StateOracle,
    a: Account,
)
    requires
        structural_failure(d, dcfg, now) is None,
        oracle.maybe_account == Some(a),
        all_signers_known(a.associated_keys@, d.approvals@),
        signer_weight_sum(a.associated_keys@, d.approvals@) < a.action_thresholds.deployment,
    ensures
        expected_result(d, Source::Client, cfg, dcfg, now, oracle) == Err::<(), Error>(
            Error::InvalidDeployParameters {
                failure: DeployParameterFailure::InsufficientDeploySignatureWeight,
            },
        ),
        expected_queries(d, Source::Client, cfg, dcfg, now, oracle) =~= seq![
            Query::GetAccount { account_hash: d.header.account },
        ],
{
}

/// A named contract that resolves but lacks the named entry point is
/// rejected with `NonexistentContractEntryPoint`, distinguishable from the
/// missing-contract rejection the same reference gets when nothing resolves.
pub proof fn missing_entry_point_is_distinct(
    name: u64,
    entry_point: u64,
    c: Contract,
)
    requires
        !word_seq_contains(c.entry_points@, entry_point),
    ensures
        item_resolution_failure(
            ExecutableItem::StoredContractByName { name, entry_point },
            Some(StoredValue::Contract(c)),
        ) == Some(
            Error::InvalidDeployParameters {
                failure: DeployParameterFailure::NonexistentContractEntryPoint { entry_point },
            },
        ),
        item_resolution_failure(ExecutableItem::StoredContractByName { name, entry_point }, None)
            == Some(
            Error::InvalidDeployParameters {
                failure: DeployParameterFailure::NonexistentContractAtName { name },
            },
        ),
        item_resolution_failure(
            ExecutableItem::StoredContractByName { name, entry_point },
            Some(StoredValue::Contract(c)),
        ) != item_resolution_failure(
            ExecutableItem::StoredContractByName { name, entry_point },
            None,
        ),
{
}

/// The balance boundary is inclusive: a balance equal to the maximum
/// payment amount passes, one unit below it is rejected with
/// `InsufficientBalance`.
pub proof fn balance_boundary_is_inclusive(dcfg: DeployConfig)
    ensures
        balance_failure(Some(dcfg.max_payment_amount), dcfg) is None,
        dcfg.max_payment_amount >= 1 ==> balance_failure(
            Some((dcfg.max_payment_amount - 1) as u64),
            dcfg,
        ) == Some(
            Error::InvalidDeployParameters {
                failure: DeployParameterFailure::InsufficientBalance {
                    balance: (dcfg.max_payment_amount - 1) as u64,
                },
            },
        ),
{
}

/// A balance query that cannot find the state root is rejected with
/// `UnknownBalance`, distinct from the `NonexistentAccount` rejection of an
/// unresolved account.
pub proof fn unknown_balance_is_distinct(dcfg: DeployConfig, account_hash: u64)
    ensures
        balance_failure(None, dcfg) == Some(
            Error::InvalidDeployParameters { failure: DeployParameterFailure::UnknownBalance },
        ),
        balance_failure(None, dcfg) != Some(
            Error::InvalidDeployParameters {
                failure: DeployParameterFailure::NonexistentAccount { account_hash },
            },
        ),
{
}

/// Each handled event either progresses the pipeline — with exactly one
/// follow-up query or the storage write — or is terminal, announcing exactly
/// once; a caller's completion is delivered only on a terminal step.
pub proof fn each_event_progresses_or_announces_once(
    cfg: Config,
    dcfg: DeployConfig,
    now: u64,
    event: AcceptorEvent,
)
    ensures
        effects_spec(cfg, dcfg, now, event).announcement is Some <==> (effects_spec(
            cfg,
            dcfg,
            now,
            event,
        ).query is None && !effects_spec(cfg, dcfg, now, event).store),
        !(effects_spec(cfg, dcfg, now, event).query is Some && effects_spec(
            cfg,
            dcfg,
            now,
            event,
        ).store),
        effects_spec(cfg, dcfg, now, event).completion is Some ==> effects_spec(
            cfg,
            dcfg,
            now,
            event,
        ).announcement is Some,
{
}

} // verus!

