use deploy_acceptor::acceptor::{
    inject_balance_check_for_peer, process_deploy, schedule_accept_deploy, AcceptorEvent,
    Announcement, DeployAcceptor, EventMetadata, Query, StateOracle,
};
use deploy_acceptor::account::{Account, ActionThresholds, Contract, ContractPackage, StoredValue};
use deploy_acceptor::config::{Config, DeployConfig};
use deploy_acceptor::deploy::{header_digest, Deploy, ExecutableItem, Source};
use deploy_acceptor::error::{DeployConfigurationFailure, DeployParameterFailure, Error};
use deploy_acceptor::storage::{put_block_to_storage, put_deploy_to_storage, Block, Storage, StorageRequest};
use deploy_acceptor::validation::{
    check_authorization, check_balance, resolve_item, validate_structure,
};

const NOW: u64 = 5000;
const ACCOUNT: u64 = 1000;
const PURSE: u64 = 2000;

fn deploy_config() -> DeployConfig {
    DeployConfig { max_payment_amount: 1_000_000, max_deploy_size: 1024, max_ttl: 86400 }
}

fn acceptor() -> DeployAcceptor {
    DeployAcceptor::new(Config::new(true), deploy_config())
}

fn transfer_deploy() -> Deploy {
    Deploy::new(
        ACCOUNT,
        NOW,
        3600,
        1,
        ExecutableItem::ModuleBytes { module_bytes: vec![] },
        ExecutableItem::Transfer,
        &vec![ACCOUNT],
    )
}

fn happy_oracle() -> StateOracle {
    StateOracle {
        maybe_account: Some(Account::create(ACCOUNT, PURSE)),
        maybe_balance: Some(deploy_config().max_payment_amount),
        payment_value: None,
        session_value: None,
    }
}

#[test]
fn structural_rejection_issues_no_queries() {
    let mut deploy = transfer_deploy();
    deploy.invalidate();
    let mut storage = Storage::new();
    let run = process_deploy(
        &acceptor(),
        deploy.clone(),
        Source::Client,
        true,
        happy_oracle(),
        &mut storage,
        NOW,
    );
    assert_eq!(
        run.result,
        Err(Error::InvalidDeployConfiguration(DeployConfigurationFailure::InvalidDeployHash))
    );
    assert!(run.queries.is_empty());
    assert_eq!(
        run.announcements,
        vec![Announcement::InvalidDeploy {
            deploy_hash: deploy.hash,
            source: Source::Client,
            reason: Error::InvalidDeployConfiguration(
                DeployConfigurationFailure::InvalidDeployHash
            ),
        }]
    );
    assert!(!storage.has_deploy(deploy.hash));
}

#[test]
fn accepted_deploy_is_retrievable_by_hash() {
    let deploy = transfer_deploy();
    let expected = transfer_deploy();
    let mut storage = Storage::new();
    let run = process_deploy(
        &acceptor(),
        deploy,
        Source::Client,
        true,
        happy_oracle(),
        &mut storage,
        NOW,
    );
    assert_eq!(run.result, Ok(()));
    assert_eq!(run.completion, Some(Ok(())));
    assert_eq!(
        run.queries,
        vec![
            Query::GetAccount { account_hash: ACCOUNT },
            Query::GetBalance { purse: PURSE },
        ]
    );
    assert_eq!(storage.get_deploy_by_hash(expected.hash), Some(&expected));
}

#[test]
fn resubmission_reports_duplicate_without_reacceptance() {
    let mut storage = Storage::new();
    let first = process_deploy(
        &acceptor(),
        transfer_deploy(),
        Source::Client,
        true,
        happy_oracle(),
        &mut storage,
        NOW,
    );
    let hash = transfer_deploy().hash;
    assert_eq!(
        first.announcements,
        vec![Announcement::AcceptedNewDeploy { deploy_hash: hash, source: Source::Client }]
    );
    let second = process_deploy(
        &acceptor(),
        transfer_deploy(),
        Source::Client,
        true,
        happy_oracle(),
        &mut storage,
        NOW,
    );
    assert_eq!(second.result, Ok(()));
    assert_eq!(
        second.announcements,
        vec![Announcement::PutToStorageResult { deploy_hash: hash, is_new: false }]
    );
}

#[test]
fn peer_deploy_skips_economic_checks_when_account_is_unresolved() {
    let mut storage = Storage::new();
    let oracle = StateOracle {
        maybe_account: None,
        maybe_balance: None,
        payment_value: None,
        session_value: None,
    };
    let run = process_deploy(
        &acceptor(),
        transfer_deploy(),
        Source::Peer(42),
        true,
        oracle,
        &mut storage,
        NOW,
    );
    assert_eq!(run.result, Ok(()));
    assert_eq!(run.queries, vec![Query::GetAccount { account_hash: ACCOUNT }]);
}

#[test]
fn balance_boundary_is_inclusive() {
    let cfg = deploy_config();
    assert_eq!(check_balance(Some(cfg.max_payment_amount), &cfg), Ok(()));
    assert_eq!(
        check_balance(Some(cfg.max_payment_amount - 1), &cfg),
        Err(Error::InvalidDeployParameters {
            failure: DeployParameterFailure::InsufficientBalance {
                balance: cfg.max_payment_amount - 1,
            },
        })
    );
    assert_eq!(
        check_balance(None, &cfg),
        Err(Error::InvalidDeployParameters { failure: DeployParameterFailure::UnknownBalance })
    );
}

#[test]
fn oversize_deploy_is_rejected() {
    let deploy = Deploy::new(
        ACCOUNT,
        NOW,
        3600,
        1,
        ExecutableItem::ModuleBytes { module_bytes: vec![0u8; 2000] },
        ExecutableItem::Transfer,
        &vec![ACCOUNT],
    );
    assert_eq!(
        validate_structure(&deploy, &deploy_config(), NOW),
        Err(Error::InvalidDeployConfiguration(DeployConfigurationFailure::ExcessiveSize))
    );
}

#[test]
fn excessive_ttl_is_rejected() {
    let deploy = Deploy::new(
        ACCOUNT,
        NOW,
        86_401,
        1,
        ExecutableItem::ModuleBytes { module_bytes: vec![] },
        ExecutableItem::Transfer,
        &vec![ACCOUNT],
    );
    assert_eq!(
        validate_structure(&deploy, &deploy_config(), NOW),
        Err(Error::InvalidDeployConfiguration(DeployConfigurationFailure::ExcessiveTimeToLive))
    );
}

#[test]
fn future_timestamp_is_rejected() {
    let deploy = Deploy::new(
        ACCOUNT,
        NOW + 1,
        3600,
        1,
        ExecutableItem::ModuleBytes { module_bytes: vec![] },
        ExecutableItem::Transfer,
        &vec![ACCOUNT],
    );
    assert_eq!(
        validate_structure(&deploy, &deploy_config(), NOW),
        Err(Error::InvalidDeployConfiguration(DeployConfigurationFailure::TimestampInFuture))
    );
}

#[test]
fn corrupted_body_hash_is_rejected() {
    let mut deploy = transfer_deploy();
    deploy.header.body_hash ^= 1;
    deploy.hash = header_digest(&deploy.header);
    assert_eq!(
        validate_structure(&deploy, &deploy_config(), NOW),
        Err(Error::InvalidDeployConfiguration(DeployConfigurationFailure::InvalidBodyHash))
    );
}

#[test]
fn corrupted_approval_is_rejected() {
    let mut deploy = transfer_deploy();
    deploy.approvals[0].signed_hash ^= 1;
    assert_eq!(
        validate_structure(&deploy, &deploy_config(), NOW),
        Err(Error::InvalidDeployConfiguration(DeployConfigurationFailure::InvalidApproval))
    );
}

#[test]
fn authorization_sums_weights_against_the_threshold() {
    let account = Account {
        account_hash: ACCOUNT,
        main_purse: PURSE,
        associated_keys: vec![(1, 1), (2, 2)],
        action_thresholds: ActionThresholds { deployment: 3, key_management: 3 },
    };
    let both_signed = Deploy::new(
        ACCOUNT,
        NOW,
        3600,
        1,
        ExecutableItem::ModuleBytes { module_bytes: vec![] },
        ExecutableItem::Transfer,
        &vec![1, 2],
    );
    assert_eq!(check_authorization(&account, &both_signed), Ok(()));
    let one_signed = Deploy::new(
        ACCOUNT,
        NOW,
        3600,
        1,
        ExecutableItem::ModuleBytes { module_bytes: vec![] },
        ExecutableItem::Transfer,
        &vec![2],
    );
    assert_eq!(
        check_authorization(&account, &one_signed),
        Err(Error::InvalidDeployParameters {
            failure: DeployParameterFailure::InsufficientDeploySignatureWeight,
        })
    );
    let stranger_signed = Deploy::new(
        ACCOUNT,
        NOW,
        3600,
        1,
        ExecutableItem::ModuleBytes { module_bytes: vec![] },
        ExecutableItem::Transfer,
        &vec![9],
    );
    assert_eq!(
        check_authorization(&account, &stranger_signed),
        Err(Error::InvalidDeployParameters {
            failure: DeployParameterFailure::InvalidAssociatedKeys,
        })
    );
}

#[test]
fn package_version_resolution() {
    let item = ExecutableItem::StoredVersionedContractByName {
        name: 12,
        version: None,
        entry_point: 20,
    };
    let package = Some(StoredValue::ContractPackage(ContractPackage {
        enabled_versions: vec![1],
    }));
    assert_eq!(resolve_item(&item, &package), Ok(()));
    let pinned_present = ExecutableItem::StoredVersionedContractByName {
        name: 12,
        version: Some(1),
        entry_point: 20,
    };
    assert_eq!(resolve_item(&pinned_present, &package), Ok(()));
    let pinned_missing = ExecutableItem::StoredVersionedContractByName {
        name: 12,
        version: Some(2),
        entry_point: 20,
    };
    assert_eq!(
        resolve_item(&pinned_missing, &package),
        Err(Error::InvalidDeployParameters {
            failure: DeployParameterFailure::InvalidContractAtVersion { contract_version: 2 },
        })
    );
    assert_eq!(
        resolve_item(&pinned_missing, &None),
        Err(Error::InvalidDeployParameters {
            failure: DeployParameterFailure::NonexistentContractPackageAtName { name: 12 },
        })
    );
}

#[test]
fn contract_entry_point_resolution() {
    let item = ExecutableItem::StoredContractByName { name: 10, entry_point: 20 };
    let found = Some(StoredValue::Contract(Contract { entry_points: vec![20] }));
    assert_eq!(resolve_item(&item, &found), Ok(()));
    let missing_entry = ExecutableItem::StoredContractByName { name: 10, entry_point: 21 };
    assert_eq!(
        resolve_item(&missing_entry, &found),
        Err(Error::InvalidDeployParameters {
            failure: DeployParameterFailure::NonexistentContractEntryPoint { entry_point: 21 },
        })
    );
    assert_eq!(
        resolve_item(&item, &None),
        Err(Error::InvalidDeployParameters {
            failure: DeployParameterFailure::NonexistentContractAtName { name: 10 },
        })
    );
}

#[test]
fn storage_deduplicates_by_hash() {
    let mut storage = Storage::new();
    assert!(storage.put_deploy(transfer_deploy()));
    assert!(!storage.put_deploy(transfer_deploy()));
    assert!(storage.has_deploy(transfer_deploy().hash));
    assert!(storage.put_block(Block { hash: 7 }));
    assert!(!storage.put_block(Block { hash: 7 }));
}

#[test]
fn storage_request_builders_carry_their_payload() {
    let deploy = transfer_deploy();
    assert_eq!(
        put_deploy_to_storage(deploy.clone()),
        StorageRequest::PutDeploy { deploy }
    );
    assert_eq!(
        put_block_to_storage(Block { hash: 9 }),
        StorageRequest::PutBlock { block: Block { hash: 9 } }
    );
}

#[test]
fn accept_event_first_issues_the_account_query() {
    let deploy = transfer_deploy();
    let event = schedule_accept_deploy(deploy, Source::Client, true);
    let effects = acceptor().handle_event(event, NOW);
    assert_eq!(effects.query, Some(Query::GetAccount { account_hash: ACCOUNT }));
    assert!(!effects.store);
    assert_eq!(effects.announcement, None);
}

#[test]
fn balance_check_for_peer_is_a_contract_violation() {
    let event = inject_balance_check_for_peer(transfer_deploy(), Source::Peer(42), true);
    assert!(acceptor().try_handle_event(event, NOW).is_err());
    let client_event = AcceptorEvent::GetBalanceResult {
        event_metadata: EventMetadata::new(transfer_deploy(), Source::Client, true),
        maybe_balance_value: Some(deploy_config().max_payment_amount),
    };
    let effects = acceptor().try_handle_event(client_event, NOW).unwrap();
    assert!(effects.store);
}

#[test]
fn digest_distinguishes_headers() {
    let a = transfer_deploy();
    let mut header = a.header;
    header.timestamp += 1;
    assert_ne!(header_digest(&a.header), header_digest(&header));
    assert_eq!(header_digest(&a.header), a.hash);
}

#[test]
fn empty_session_module_bytes_is_rejected_from_peers_too() {
    let deploy = Deploy::new(
        ACCOUNT,
        NOW,
        3600,
        1,
        ExecutableItem::ModuleBytes { module_bytes: vec![] },
        ExecutableItem::ModuleBytes { module_bytes: vec![] },
        &vec![ACCOUNT],
    );
    let mut storage = Storage::new();
    let run = process_deploy(
        &acceptor(),
        deploy,
        Source::Peer(42),
        true,
        happy_oracle(),
        &mut storage,
        NOW,
    );
    assert_eq!(
        run.result,
        Err(Error::InvalidDeployParameters {
            failure: DeployParameterFailure::MissingModuleBytes,
        })
    );
    assert!(run.queries.is_empty());
}
