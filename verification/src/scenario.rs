//! A catalogue of end-to-end scenarios: for each, the origin of the deploy,
//! the deploy itself, the answers the state services would give, and whether
//! the pipeline should accept. The integration tests drive the pipeline
//! through these.

use vstd::prelude::*;

use crate::acceptor::{
    expected_result, inject_balance_check_for_peer, process_deploy, Announcement,
    ContractViolation, DeployAcceptor, StateOracle,
};
use crate::account::{
    key_weight, version_seq_contains, word_seq_contains, Account, ActionThresholds, Contract,
    ContractPackage, StoredValue,
};
use crate::config::{Config, DeployConfig};
use crate::deploy::{
    body_digest_spec, deploy_size_spec, deploy_wf, header_digest_spec, Approval, Deploy,
    ExecutableItem, Source,
};
use crate::error::Error;
use crate::storage::{Block, Storage};
use crate::validation::{approvals_valid, signer_weight_sum, structural_failure};

verus! {

/// The time-to-live every scenario deploy carries.
pub const DEPLOY_TTL: u64 = 3600;

/// The chain name every scenario deploy carries.
pub const CHAIN_NAME_ID: u64 = 1;

/// The named key under which scenario contracts are stored.
pub const CONTRACT_NAME_ID: u64 = 10;

/// The hash under which scenario contracts are stored.
pub const CONTRACT_HASH_ID: u64 = 11;

/// The named key under which scenario packages are stored.
pub const PACKAGE_NAME_ID: u64 = 12;

/// The hash under which scenario packages are stored.
pub const PACKAGE_HASH_ID: u64 = 13;

/// The entry point the scenario contracts expose.
pub const ENTRY_POINT_ID: u64 = 20;

/// An entry point the scenario contracts do not expose.
pub const MISSING_ENTRY_POINT_ID: u64 = 21;

/// The one version enabled in the scenario packages.
pub const PACKAGE_VERSION: u32 = 1;

/// A version the scenario packages do not hold.
pub const MISSING_PACKAGE_VERSION: u32 = 2;

/// How a referenced contract resolves in a scenario.
#[derive(Clone, Copy, Debug, PartialEq, Eq, Structural)]
pub enum ContractScenario {
    Valid,
    MissingContractAtHash,
    MissingContractAtName,
    MissingEntryPoint,
}

/// How a referenced contract package resolves in a scenario.
#[derive(Clone, Copy, Debug, PartialEq, Eq, Structural)]
pub enum ContractPackageScenario {
    Valid,
    MissingPackageAtHash,
    MissingPackageAtName,
    MissingContractVersion,
}

/// One end-to-end scenario of the admission pipeline.
#[derive(Clone, Copy, Debug, PartialEq, Eq, Structural)]
pub enum TestScenario {
    FromPeerInvalidDeploy,
    FromPeerValidDeploy,
    FromPeerRepeatedValidDeploy,
    FromClientInvalidDeploy,
    FromClientMissingAccount,
    FromClientInsufficientBalance,
    FromClientValidDeploy,
    FromClientRepeatedValidDeploy,
    AccountWithInsufficientWeight,
    AccountWithInvalidAssociatedKeys,
    AccountWithUnknownBalance,
    DeployWithCustomPaymentContract(ContractScenario),
    DeployWithCustomPaymentContractPackage(ContractPackageScenario),
    DeployWithSessionContract(ContractScenario),
    DeployWithSessionContractPackage(ContractPackageScenario),
    DeployWithNativeTransferInPayment,
    DeployWithEmptySessionModuleBytes,
    BalanceCheckForDeploySentByPeer,
}

/// Whether the scenario's deploy arrives from a peer.
pub open spec fn is_peer_scenario(s: TestScenario) -> bool {
    match s {
        TestScenario::FromPeerInvalidDeploy => true,
        TestScenario::FromPeerValidDeploy => true,
        TestScenario::FromPeerRepeatedValidDeploy => true,
        TestScenario::BalanceCheckForDeploySentByPeer => true,
        _ => false,
    }
}

/// Whether the scenario's deploy carries a corrupted identity.
pub open spec fn is_invalid_deploy_scenario(s: TestScenario) -> bool {
    s is FromPeerInvalidDeploy || s is FromClientInvalidDeploy
}

/// The payment item the scenario's deploy is expected to carry.
pub open spec fn scenario_payment_ok(s: TestScenario, payment: ExecutableItem) -> bool {
    match s {
        TestScenario::DeployWithCustomPaymentContract(cs) => match cs {
            ContractScenario::Valid | ContractScenario::MissingContractAtName => payment
                == (ExecutableItem::StoredContractByName {
                name: CONTRACT_NAME_ID,
                entry_point: ENTRY_POINT_ID,
            }),
            ContractScenario::MissingEntryPoint => payment == (
            ExecutableItem::StoredContractByName {
                name: CONTRACT_NAME_ID,
                entry_point: MISSING_ENTRY_POINT_ID,
            }),
            ContractScenario::MissingContractAtHash => payment == (
            ExecutableItem::StoredContractByHash {
                hash: CONTRACT_HASH_ID,
                entry_point: ENTRY_POINT_ID,
            }),
        },
        TestScenario::DeployWithCustomPaymentContractPackage(ps) => match ps {
            ContractPackageScenario::Valid | ContractPackageScenario::MissingPackageAtName =>
                payment == (ExecutableItem::StoredVersionedContractByName {
                name: PACKAGE_NAME_ID,
                version: None,
                entry_point: ENTRY_POINT_ID,
            }),
            ContractPackageScenario::MissingPackageAtHash => payment == (
            ExecutableItem::StoredVersionedContractByHash {
                hash: PACKAGE_HASH_ID,
                version: None,
                entry_point: ENTRY_POINT_ID,
            }),
            ContractPackageScenario::MissingContractVersion => payment == (
            ExecutableItem::StoredVersionedContractByName {
                name: PACKAGE_NAME_ID,
                version: Some(MISSING_PACKAGE_VERSION),
                entry_point: ENTRY_POINT_ID,
            }),
        },
        TestScenario::DeployWithNativeTransferInPayment => payment is Transfer,
        _ => payment matches ExecutableItem::ModuleBytes { module_bytes } && module_bytes@.len()
            == 0,
    }
}

/// The session item the scenario's deploy is expected to carry.
pub open spec fn scenario_session_ok(s: TestScenario, session: ExecutableItem) -> bool {
    match s {
        TestScenario::DeployWithSessionContract(cs) => match cs {
            ContractScenario::Valid | ContractScenario::MissingContractAtName => session
                == (ExecutableItem::StoredContractByName {
                name: CONTRACT_NAME_ID,
                entry_point: ENTRY_POINT_ID,
            }),
            ContractScenario::MissingEntryPoint => session == (
            ExecutableItem::StoredContractByName {
                name: CONTRACT_NAME_ID,
                entry_point: MISSING_ENTRY_POINT_ID,
            }),
            ContractScenario::MissingContractAtHash => session == (
            ExecutableItem::StoredContractByHash {
                hash: CONTRACT_HASH_ID,
                entry_point: ENTRY_POINT_ID,
            }),
        },
        TestScenario::DeployWithSessionContractPackage(ps) => match ps {
            ContractPackageScenario::Valid | ContractPackageScenario::MissingPackageAtName =>
                session == (ExecutableItem::StoredVersionedContractByName {
                name: PACKAGE_NAME_ID,
                version: None,
                entry_point: ENTRY_POINT_ID,
            }),
            ContractPackageScenario::MissingPackageAtHash => session == (
            ExecutableItem::StoredVersionedContractByHash {
                hash: PACKAGE_HASH_ID,
                version: None,
                entry_point: ENTRY_POINT_ID,
            }),
            ContractPackageScenario::MissingContractVersion => session == (
            ExecutableItem::StoredVersionedContractByName {
                name: PACKAGE_NAME_ID,
                version: Some(MISSING_PACKAGE_VERSION),
                entry_point: ENTRY_POINT_ID,
            }),
        },
        TestScenario::DeployWithEmptySessionModuleBytes => session matches
            ExecutableItem::ModuleBytes { module_bytes } && module_bytes@.len() == 0,
        _ => session is Transfer,
    }
}

/// Whether the scenario's deploy is expected to be admitted.
pub open spec fn is_valid_deploy_case_spec(s: TestScenario) -> bool {
    match s {
        TestScenario::FromPeerValidDeploy => true,
        TestScenario::FromPeerRepeatedValidDeploy => true,
        TestScenario::FromClientValidDeploy => true,
        TestScenario::FromClientRepeatedValidDeploy => true,
        TestScenario::DeployWithCustomPaymentContract(cs) => cs is Valid,
        TestScenario::DeployWithSessionContract(cs) => cs is Valid,
        TestScenario::DeployWithCustomPaymentContractPackage(ps) => ps is Valid,
        TestScenario::DeployWithSessionContractPackage(ps) => ps is Valid,
        _ => false,
    }
}

impl TestScenario {
    /// The origin the scenario's deploy arrives from; a peer is identified
    /// by the given node identifier.
    pub fn source(&self, node_id: u64) -> (r: Source)
        ensures
            r == if is_peer_scenario(*self) {
                Source::Peer(node_id)
            } else {
                Source::Client
            },
    {
        match self {
            TestScenario::FromPeerInvalidDeploy
            | TestScenario::FromPeerValidDeploy
            | TestScenario::FromPeerRepeatedValidDeploy
            | TestScenario::BalanceCheckForDeploySentByPeer => Source::Peer(node_id),
            _ => Source::Client,
        }
    }

    /// Builds the scenario's deploy: a well-formed transfer deploy signed by
    /// `account`, with the payment or session logic the scenario calls for,
    /// and a corrupted identity in the invalid-deploy scenarios.
    pub fn deploy(&self, account: u64, now: u64) -> (r: Deploy)
        ensures
            deploy_wf(r),
            r.approvals@ =~= seq![
                Approval { signer: account, signed_hash: header_digest_spec(r.header) },
            ],
            r.header.account == account,
            r.header.timestamp == now,
            r.header.ttl == DEPLOY_TTL,
            r.header.chain_name == CHAIN_NAME_ID,
            r.header.body_hash == body_digest_spec(r.payment, r.session),
            is_invalid_deploy_scenario(*self) <==> r.hash != header_digest_spec(r.header),
            scenario_payment_ok(*self, r.payment),
            scenario_session_ok(*self, r.session),
    {
        let payment: ExecutableItem = match self {
            TestScenario::DeployWithCustomPaymentContract(cs) => match cs {
                ContractScenario::Valid | ContractScenario::MissingContractAtName =>
                    ExecutableItem::StoredContractByName {
                    name: CONTRACT_NAME_ID,
                    entry_point: ENTRY_POINT_ID,
                },
                ContractScenario::MissingEntryPoint => ExecutableItem::StoredContractByName {
                    name: CONTRACT_NAME_ID,
                    entry_point: MISSING_ENTRY_POINT_ID,
                },
                ContractScenario::MissingContractAtHash => ExecutableItem::StoredContractByHash {
                    hash: CONTRACT_HASH_ID,
                    entry_point: ENTRY_POINT_ID,
                },
            },
            TestScenario::DeployWithCustomPaymentContractPackage(ps) => match ps {
                ContractPackageScenario::Valid | ContractPackageScenario::MissingPackageAtName =>
                    ExecutableItem::StoredVersionedContractByName {
                    name: PACKAGE_NAME_ID,
                    version: None,
                    entry_point: ENTRY_POINT_ID,
                },
                ContractPackageScenario::MissingPackageAtHash =>
                    ExecutableItem::StoredVersionedContractByHash {
                    hash: PACKAGE_HASH_ID,
                    version: None,
                    entry_point: ENTRY_POINT_ID,
                },
                ContractPackageScenario::MissingContractVersion =>
                    ExecutableItem::StoredVersionedContractByName {
                    name: PACKAGE_NAME_ID,
                    version: Some(MISSING_PACKAGE_VERSION),
                    entry_point: ENTRY_POINT_ID,
                },
            },
            TestScenario::DeployWithNativeTransferInPayment => ExecutableItem::Transfer,
            _ => ExecutableItem::ModuleBytes { module_bytes: Vec::new() },
        };
        let session: ExecutableItem = match self {
            TestScenario::DeployWithSessionContract(cs) => match cs {
                ContractScenario::Valid | ContractScenario::MissingContractAtName =>
                    ExecutableItem::StoredContractByName {
                    name: CONTRACT_NAME_ID,
                    entry_point: ENTRY_POINT_ID,
                },
                ContractScenario::MissingEntryPoint => ExecutableItem::StoredContractByName {
                    name: CONTRACT_NAME_ID,
                    entry_point: MISSING_ENTRY_POINT_ID,
                },
                ContractScenario::MissingContractAtHash => ExecutableItem::StoredContractByHash {
                    hash: CONTRACT_HASH_ID,
                    entry_point: ENTRY_POINT_ID,
                },
            },
            TestScenario::DeployWithSessionContractPackage(ps) => match ps {
                ContractPackageScenario::Valid | ContractPackageScenario::MissingPackageAtName =>
                    ExecutableItem::StoredVersionedContractByName {
                    name: PACKAGE_NAME_ID,
                    version: None,
                    entry_point: ENTRY_POINT_ID,
                },
                ContractPackageScenario::MissingPackageAtHash =>
                    ExecutableItem::StoredVersionedContractByHash {
                    hash: PACKAGE_HASH_ID,
                    version: None,
                    entry_point: ENTRY_POINT_ID,
                },
                ContractPackageScenario::MissingContractVersion =>
                    ExecutableItem::StoredVersionedContractByName {
                    name: PACKAGE_NAME_ID,
                    version: Some(MISSING_PACKAGE_VERSION),
                    entry_point: ENTRY_POINT_ID,
                },
            },
            TestScenario::DeployWithEmptySessionModuleBytes => ExecutableItem::ModuleBytes {
                module_bytes: Vec::new(),
            },
            _ => ExecutableItem::Transfer,
        };
        let mut signers: Vec<u64> = Vec::new();
        signers.push(account);
        let mut d = Deploy::new(account, now, DEPLOY_TTL, CHAIN_NAME_ID, payment, session, &signers);
        proof {
            assert(d.approvals@ =~= seq![
                Approval { signer: account, signed_hash: header_digest_spec(d.header) },
            ]);
        }
        if matches!(self, TestScenario::FromPeerInvalidDeploy | TestScenario::FromClientInvalidDeploy) {
            d.invalidate();
        }
        d
    }

    /// Whether the scenario's deploy is expected to be admitted.
    pub fn is_valid_deploy_case(&self) -> (r: bool)
        ensures
            r == is_valid_deploy_case_spec(*self),
    {
        match self {
            TestScenario::FromPeerRepeatedValidDeploy
            | TestScenario::FromPeerValidDeploy
            | TestScenario::FromClientRepeatedValidDeploy
            | TestScenario::FromClientValidDeploy => true,
            TestScenario::DeployWithCustomPaymentContract(cs)
            | TestScenario::DeployWithSessionContract(cs) => matches!(cs, ContractScenario::Valid),
            TestScenario::DeployWithCustomPaymentContractPackage(ps)
            | TestScenario::DeployWithSessionContractPackage(ps) => matches!(
                ps,
                ContractPackageScenario::Valid,
            ),
            _ => false,
        }
    }

    /// Whether the scenario submits a deploy that was already stored.
    pub fn is_repeated_deploy_case(&self) -> (r: bool)
        ensures
            r == (*self is FromClientRepeatedValidDeploy || *self is FromPeerRepeatedValidDeploy),
    {
        matches!(
            self,
            TestScenario::FromClientRepeatedValidDeploy | TestScenario::FromPeerRepeatedValidDeploy,
        )
    }

    /// The answers the state services give under this scenario, playing the
    /// part of the stubbed execution engine: the account resolves except in
    /// the missing-account scenario (with no keys or a high threshold in the
    /// two authorization scenarios); the balance answer tracks the balance
    /// scenarios; contract and package lookups answer per the contract
    /// scenarios.
    pub fn oracle(&self, account: u64, main_purse: u64, max_payment_amount: u64) -> (r: StateOracle)
        requires
            max_payment_amount >= 1,
        ensures
            *self is FromClientMissingAccount ==> r.maybe_account is None,
            !(*self is FromClientMissingAccount) ==> r.maybe_account is Some,
            *self is AccountWithInvalidAssociatedKeys ==> (r.maybe_account matches Some(a)
                && a.associated_keys@.len() == 0),
            *self is AccountWithInsufficientWeight ==> (r.maybe_account matches Some(a)
                && a.associated_keys@ =~= seq![(account, 1u8)]
                && a.action_thresholds.deployment == 100),
            !(*self is FromClientMissingAccount) && !(*self is AccountWithInvalidAssociatedKeys)
                && !(*self is AccountWithInsufficientWeight) ==> (r.maybe_account matches Some(a)
                && a.associated_keys@ =~= seq![(account, 1u8)]
                && a.action_thresholds.deployment == 1
                && a.main_purse == main_purse),
            *self is FromClientInsufficientBalance ==> r.maybe_balance == Some(
                (max_payment_amount - 1) as u64,
            ),
            *self is AccountWithUnknownBalance ==> r.maybe_balance is None,
            !(*self is FromClientInsufficientBalance) && !(*self is AccountWithUnknownBalance)
                ==> r.maybe_balance == Some(max_payment_amount),
            *self matches TestScenario::DeployWithCustomPaymentContract(cs) ==> match cs {
                ContractScenario::Valid | ContractScenario::MissingEntryPoint => (r.payment_value
                    matches Some(StoredValue::Contract(c)) && c.entry_points@ =~= seq![
                    ENTRY_POINT_ID,
                ]),
                _ => r.payment_value is None,
            },
            *self matches TestScenario::DeployWithCustomPaymentContractPackage(ps) ==> match ps {
                ContractPackageScenario::Valid | ContractPackageScenario::MissingContractVersion => (
                r.payment_value matches Some(StoredValue::ContractPackage(p))
                    && p.enabled_versions@ =~= seq![PACKAGE_VERSION]),
                _ => r.payment_value is None,
            },
            *self matches TestScenario::DeployWithSessionContract(cs) ==> match cs {
                ContractScenario::Valid | ContractScenario::MissingEntryPoint => (r.session_value
                    matches Some(StoredValue::Contract(c)) && c.entry_points@ =~= seq![
                    ENTRY_POINT_ID,
                ]),
                _ => r.session_value is None,
            },
            *self matches TestScenario::DeployWithSessionContractPackage(ps) ==> match ps {
                ContractPackageScenario::Valid | ContractPackageScenario::MissingContractVersion => (
                r.session_value matches Some(StoredValue::ContractPackage(p))
                    && p.enabled_versions@ =~= seq![PACKAGE_VERSION]),
                _ => r.session_value is None,
            },
            !(*self matches TestScenario::DeployWithCustomPaymentContract(_)) && !(*self matches
                TestScenario::DeployWithCustomPaymentContractPackage(_)) ==> r.payment_value is None,
            !(*self matches TestScenario::DeployWithSessionContract(_)) && !(*self matches
                TestScenario::DeployWithSessionContractPackage(_)) ==> r.session_value is None,
    {
        let maybe_account: Option<Account> = match self {
            TestScenario::FromClientMissingAccount => None,
            TestScenario::AccountWithInvalidAssociatedKeys => Some(
                Account {
                    account_hash: account,
                    main_purse,
                    associated_keys: Vec::new(),
                    action_thresholds: ActionThresholds { deployment: 1, key_management: 1 },
                },
            ),
            TestScenario::AccountWithInsufficientWeight => {
                let mut associated_keys: Vec<(u64, u8)> = Vec::new();
                associated_keys.push((account, 1));
                Some(
                    Account {
                        account_hash: account,
                        main_purse,
                        associated_keys,
                        action_thresholds: ActionThresholds {
                            deployment: 100,
                            key_management: 100,
                        },
                    },
                )
            },
            _ => Some(Account::create(account, main_purse)),
        };
        let maybe_balance: Option<u64> = match self {
            TestScenario::FromClientInsufficientBalance => Some(max_payment_amount - 1),
            TestScenario::AccountWithUnknownBalance => None,
            _ => Some(max_payment_amount),
        };
        let payment_value: Option<StoredValue> = match self {
            TestScenario::DeployWithCustomPaymentContract(cs) => match cs {
                ContractScenario::Valid | ContractScenario::MissingEntryPoint => {
                    let mut entry_points: Vec<u64> = Vec::new();
                    entry_points.push(ENTRY_POINT_ID);
                    Some(StoredValue::Contract(Contract { entry_points }))
                },
                _ => None,
            },
            TestScenario::DeployWithCustomPaymentContractPackage(ps) => match ps {
                ContractPackageScenario::Valid | ContractPackageScenario::MissingContractVersion
                => {
                    let mut enabled_versions: Vec<u32> = Vec::new();
                    enabled_versions.push(PACKAGE_VERSION);
                    Some(StoredValue::ContractPackage(ContractPackage { enabled_versions }))
                },
                _ => None,
            },
            _ => None,
        };
        let session_value: Option<StoredValue> = match self {
            TestScenario::DeployWithSessionContract(cs) => match cs {
                ContractScenario::Valid | ContractScenario::MissingEntryPoint => {
                    let mut entry_points: Vec<u64> = Vec::new();
                    entry_points.push(ENTRY_POINT_ID);
                    Some(StoredValue::Contract(Contract { entry_points }))
                },
                _ => None,
            },
            TestScenario::DeployWithSessionContractPackage(ps) => match ps {
                ContractPackageScenario::Valid | ContractPackageScenario::MissingContractVersion
                => {
                    let mut enabled_versions: Vec<u32> = Vec::new();
                    enabled_versions.push(PACKAGE_VERSION);
                    Some(StoredValue::ContractPackage(ContractPackage { enabled_versions }))
                },
                _ => None,
            },
            _ => None,
        };
        StateOracle { maybe_account, maybe_balance, payment_value, session_value }
    }
}

/// For a scenario's deploy, source and oracle, the pipeline's decision is
/// `Ok` exactly when the catalogue marks the scenario as a valid case.
proof fn lemma_scenario_outcome(
    scenario: TestScenario,
    d: Deploy,
    source: Source,
    oracle: StateOracle,
    cfg: Config,
    dcfg: DeployConfig,
    now: u64,
    node_id: u64,
    account: u64,
)
    requires
        !(scenario is BalanceCheckForDeploySentByPeer),
        cfg.verify_accounts,
        dcfg.max_payment_amount >= 1,
        dcfg.max_deploy_size >= 200,
        dcfg.max_ttl >= DEPLOY_TTL,
        d.approvals@ =~= seq![
            Approval { signer: account, signed_hash: header_digest_spec(d.header) },
        ],
        d.header.account == account,
        d.header.timestamp == now,
        d.header.ttl == DEPLOY_TTL,
        d.header.body_hash == body_digest_spec(d.payment, d.session),
        is_invalid_deploy_scenario(scenario) <==> d.hash != header_digest_spec(d.header),
        scenario_payment_ok(scenario, d.payment),
        scenario_session_ok(scenario, d.session),
        source == if is_peer_scenario(scenario) {
            Source::Peer(node_id)
        } else {
            Source::Client
        },
        scenario is FromClientMissingAccount ==> oracle.maybe_account is None,
        !(scenario is FromClientMissingAccount) ==> oracle.maybe_account is Some,
        scenario is AccountWithInvalidAssociatedKeys ==> (oracle.maybe_account matches Some(a)
            && a.associated_keys@.len() == 0),
        scenario is AccountWithInsufficientWeight ==> (oracle.maybe_account matches Some(a)
            && a.associated_keys@ =~= seq![(account, 1u8)] && a.action_thresholds.deployment
            == 100),
        !(scenario is FromClientMissingAccount) && !(scenario is AccountWithInvalidAssociatedKeys)
            && !(scenario is AccountWithInsufficientWeight) ==> (oracle.maybe_account matches Some(
            a,
        ) && a.associated_keys@ =~= seq![(account, 1u8)] && a.action_thresholds.deployment == 1),
        scenario is FromClientInsufficientBalance ==> oracle.maybe_balance == Some(
            (dcfg.max_payment_amount - 1) as u64,
        ),
        scenario is AccountWithUnknownBalance ==> oracle.maybe_balance is None,
        !(scenario is FromClientInsufficientBalance) && !(scenario is AccountWithUnknownBalance)
            ==> oracle.maybe_balance == Some(dcfg.max_payment_amount),
        scenario matches TestScenario::DeployWithCustomPaymentContract(cs) ==> match cs {
            ContractScenario::Valid | ContractScenario::MissingEntryPoint => (oracle.payment_value
                matches Some(StoredValue::Contract(c)) && c.entry_points@ =~= seq![
                ENTRY_POINT_ID,
            ]),
            _ => oracle.payment_value is None,
        },
        scenario matches TestScenario::DeployWithCustomPaymentContractPackage(ps) ==> match ps {
            ContractPackageScenario::Valid | ContractPackageScenario::MissingContractVersion => (
            oracle.payment_value matches Some(StoredValue::ContractPackage(p))
                && p.enabled_versions@ =~= seq![PACKAGE_VERSION]),
            _ => oracle.payment_value is None,
        },
        scenario matches TestScenario::DeployWithSessionContract(cs) ==> match cs {
            ContractScenario::Valid | ContractScenario::MissingEntryPoint => (oracle.session_value
                matches Some(StoredValue::Contract(c)) && c.entry_points@ =~= seq![
                ENTRY_POINT_ID,
            ]),
            _ => oracle.session_value is None,
        },
        scenario matches TestScenario::DeployWithSessionContractPackage(ps) ==> match ps {
            ContractPackageScenario::Valid | ContractPackageScenario::MissingContractVersion => (
            oracle.session_value matches Some(StoredValue::ContractPackage(p))
                && p.enabled_versions@ =~= seq![PACKAGE_VERSION]),
            _ => oracle.session_value is None,
        },
    ensures
        expected_result(d, source, cfg, dcfg, now, oracle) is Ok <==> is_valid_deploy_case_spec(
            scenario,
        ),
{
    let ap = d.approvals@;
    assert(ap.len() == 1);
    assert(ap[0] == Approval { signer: account, signed_hash: header_digest_spec(d.header) });
    if is_invalid_deploy_scenario(scenario) {
        assert(structural_failure(d, dcfg, now) is Some);
    } else {
        assert(d.hash == header_digest_spec(d.header));
        assert(approvals_valid(d)) by {
            assert forall|i: int| 0 <= i < ap.len() implies ap[i].signed_hash == d.hash by {
                assert(i == 0);
            }
        }
        assert(deploy_size_spec(d) <= 200);
        if scenario is DeployWithNativeTransferInPayment || scenario
            is DeployWithEmptySessionModuleBytes {
            assert(structural_failure(d, dcfg, now) is Some);
        } else {
            assert(!(d.payment is Transfer));
            assert(structural_failure(d, dcfg, now) is None);
            if !is_peer_scenario(scenario) && !(scenario is FromClientMissingAccount) {
                let a = oracle.maybe_account.unwrap();
                let keys = a.associated_keys@;
                if scenario is AccountWithInvalidAssociatedKeys {
                    assert(key_weight(keys, account) is None);
                } else {
                    assert(keys =~= seq![(account, 1u8)]);
                    assert(keys[0] == (account, 1u8));
                    assert(key_weight(keys, account) == Some(1u8));
                    assert forall|i: int| 0 <= i < ap.len() implies key_weight(
                        keys,
                        ap[i].signer,
                    ) is Some by {
                        assert(i == 0);
                    }
                    assert(ap.drop_first() =~= Seq::<Approval>::empty());
                    assert(signer_weight_sum(keys, Seq::<Approval>::empty()) == 0);
                    assert(signer_weight_sum(keys, ap) == 1);
                }
            }
            assert(!word_seq_contains(seq![ENTRY_POINT_ID], MISSING_ENTRY_POINT_ID)) by {
                assert(seq![ENTRY_POINT_ID][0] == ENTRY_POINT_ID);
            }
            assert(word_seq_contains(seq![ENTRY_POINT_ID], ENTRY_POINT_ID)) by {
                assert(seq![ENTRY_POINT_ID][0] == ENTRY_POINT_ID);
            }
            assert(!version_seq_contains(seq![PACKAGE_VERSION], MISSING_PACKAGE_VERSION)) by {
                assert(seq![PACKAGE_VERSION][0] == PACKAGE_VERSION);
            }
        }
    }
}

/// What one scenario run produced: the caller's completion (absent when the
/// run was aborted by a contract violation), whether a violation was hit,
/// whether the deploy ended up in storage, and the announcements seen.
#[derive(Debug, PartialEq, Eq)]
pub struct ScenarioRun {
    pub outcome: Option<Result<(), Error>>,
    pub violation: bool,
    pub deploy_stored: bool,
    pub announcements: Vec<Announcement>,
}

/// Drives one scenario end to end against fresh storage, the way the node's
/// harness would: a block write first, the pre-stored copy in the repeated
/// scenarios, the stray balance answer in the peer balance-check scenario
/// (which aborts as a contract violation), then the submission itself.
pub fn run_deploy_acceptor(scenario: TestScenario) -> (r: ScenarioRun)
    ensures
        r.violation == (scenario is BalanceCheckForDeploySentByPeer),
        r.outcome is Some <==> !(scenario is BalanceCheckForDeploySentByPeer),
        r.outcome matches Some(res) ==> (res is Ok <==> is_valid_deploy_case_spec(scenario)),
{
    let node_id: u64 = 42;
    let account: u64 = 1000;
    let main_purse: u64 = 2000;
    let now: u64 = 5000;
    let config = Config::new(true);
    let deploy_config = DeployConfig {
        max_payment_amount: 1000000,
        max_deploy_size: 1024,
        max_ttl: 86400,
    };
    let acceptor = DeployAcceptor::new(config, deploy_config);
    let mut storage = Storage::new();
    storage.put_block(Block { hash: 7 });
    let source = scenario.source(node_id);
    let deploy = scenario.deploy(account, now);
    if scenario.is_repeated_deploy_case() {
        let injected_deploy = scenario.deploy(account, now);
        storage.put_deploy(injected_deploy);
    }
    if matches!(scenario, TestScenario::BalanceCheckForDeploySentByPeer) {
        let fatal_deploy = scenario.deploy(account, now);
        let stray = inject_balance_check_for_peer(fatal_deploy, source, true);
        let handled: Result<crate::acceptor::Effects, ContractViolation> = acceptor
            .try_handle_event(stray, now);
        if handled.is_err() {
            return ScenarioRun {
                outcome: None,
                violation: true,
                deploy_stored: false,
                announcements: Vec::new(),
            };
        }
    }
    let deploy_hash = deploy.hash;
    let oracle = scenario.oracle(account, main_purse, deploy_config.max_payment_amount);
    proof {
        lemma_scenario_outcome(scenario, deploy, source, oracle, config, deploy_config, now, node_id, account);
    }
    let run = process_deploy(&acceptor, deploy, source, true, oracle, &mut storage, now);
    let deploy_stored = storage.has_deploy(deploy_hash);
    ScenarioRun {
        outcome: Some(run.result),
        violation: false,
        deploy_stored,
        announcements: run.announcements,
    }
}

} // verus!
