//! The admission pipeline itself: an event-driven state machine over one
//! in-flight deploy. Each asynchronous answer (account, balance, stored
//! value, storage write) arrives as an event carrying the deploy's context;
//! the handler decides the next query, rejection or storage write. A driver
//! runs a whole submission against answers supplied as values and is proved
//! equal to a declarative specification of the pipeline.

use vstd::prelude::*;

use crate::account::{Account, StoredValue};
use crate::config::{Config, DeployConfig};
use crate::deploy::{Deploy, Source};
use crate::error::Error;
use crate::storage::{find_deploy, Storage};
use crate::validation::{
    account_step, account_step_spec, authorization_failure, balance_failure, check_authorization,
    check_balance, item_resolution_failure, structural_failure, validate_structure, AccountStep,
};

verus! {

/// Per-in-flight-deploy context threaded through every asynchronous step:
/// the deploy, its origin, and whether a caller awaits completion.
#[derive(Clone, Debug, PartialEq, Eq)]
pub struct EventMetadata {
    pub deploy: Deploy,
    pub source: Source,
    pub has_responder: bool,
}

impl EventMetadata {
    /// Bundles the context of one submission.
    pub fn new(deploy: Deploy, source: Source, has_responder: bool) -> (r: EventMetadata)
        ensures
            r == (EventMetadata { deploy, source, has_responder }),
    {
        EventMetadata { deploy, source, has_responder }
    }
}

/// The key of a global-state lookup for a referenced contract or package.
#[derive(Clone, Copy, Debug, PartialEq, Eq, Structural)]
pub enum LookupKey {
    ContractByHash { hash: u64 },
    ContractByName { name: u64 },
    PackageByHash { hash: u64 },
    PackageByName { name: u64 },
}

/// An asynchronous request the pipeline issues; answers come back as events.
#[derive(Clone, Copy, Debug, PartialEq, Eq, Structural)]
pub enum Query {
    /// Resolve the paying account.
    GetAccount { account_hash: u64 },
    /// Read the balance of the account's main purse.
    GetBalance { purse: u64 },
    /// Resolve a contract or package reference.
    GetStoredValue { key: LookupKey },
}

/// Which of the deploy's two executable items a lookup answer is for.
#[derive(Clone, Copy, Debug, PartialEq, Eq, Structural)]
pub enum ItemSide {
    Payment,
    Session,
}

/// An announcement to the rest of the node; the deploy is named by its
/// content hash. Exactly one is produced per submission.
#[derive(Clone, Copy, Debug, PartialEq, Eq, Structural)]
pub enum Announcement {
    /// A new, valid deploy was stored.
    AcceptedNewDeploy { deploy_hash: u64, source: Source },
    /// A deploy was rejected, with the reason.
    InvalidDeploy { deploy_hash: u64, source: Source, reason: Error },
    /// The storage write finished; a duplicate reports `is_new == false`.
    PutToStorageResult { deploy_hash: u64, is_new: bool },
}

/// An event of the pipeline: the initial submission or one asynchronous
/// answer, each carrying the submission's context.
#[derive(Clone, Debug, PartialEq, Eq)]
pub enum AcceptorEvent {
    /// A deploy was submitted for admission.
    Accept { deploy: Deploy, source: Source, has_responder: bool },
    /// The account query answered.
    GetAccountResult { event_metadata: EventMetadata, maybe_account: Option<Account> },
    /// The purse-balance query answered; `None` means the state root was
    /// not found.
    GetBalanceResult { event_metadata: EventMetadata, maybe_balance_value: Option<u64> },
    /// A contract or package lookup answered.
    GetStoredValueResult {
        event_metadata: EventMetadata,
        side: ItemSide,
        maybe_value: Option<StoredValue>,
    },
    /// The storage write finished.
    PutToStorageResult { event_metadata: EventMetadata, is_new: bool },
}

/// What one handled event asks the surrounding runtime to do: at most one
/// follow-up query or a storage write, and on a terminal step the
/// announcement and the caller's completion.
#[derive(Clone, Copy, Debug, PartialEq, Eq)]
pub struct Effects {
    pub query: Option<Query>,
    pub store: bool,
    pub announcement: Option<Announcement>,
    pub completion: Option<Result<(), Error>>,
}

/// A programming error, not a runtime condition: an event arrived in a
/// context its stage forbids.
#[derive(Clone, Copy, Debug, PartialEq, Eq, Structural)]
pub struct ContractViolation;

/// The admission pipeline with its loaded configuration.
#[derive(Clone, Copy, Debug, PartialEq, Eq, Structural)]
pub struct DeployAcceptor {
    pub config: Config,
    pub deploy_config: DeployConfig,
}

/// The effects of a terminal rejection: announce the invalid deploy and
/// complete the caller with the error.
pub open spec fn reject_effects(d: Deploy, source: Source, has_responder: bool, e: Error) -> Effects {
    Effects {
        query: None,
        store: false,
        announcement: Some(
            Announcement::InvalidDeploy { deploy_hash: d.hash, source, reason: e },
        ),
        completion: if has_responder {
            Some(Err(e))
        } else {
            None
        },
    }
}

/// The effects of issuing one follow-up query.
pub open spec fn query_effects(q: Query) -> Effects {
    Effects { query: Some(q), store: false, announcement: None, completion: None }
}

/// The effects of handing the deploy to storage.
pub open spec fn store_effects() -> Effects {
    Effects { query: None, store: true, announcement: None, completion: None }
}

/// The lookup an executable item needs, if any: inline module bytes and the
/// native transfer need none.
pub open spec fn item_lookup_key(item: crate::deploy::ExecutableItem) -> Option<LookupKey> {
    match item {
        crate::deploy::ExecutableItem::ModuleBytes { .. } => None,
        crate::deploy::ExecutableItem::Transfer => None,
        crate::deploy::ExecutableItem::StoredContractByHash { hash, .. } => Some(
            LookupKey::ContractByHash { hash },
        ),
        crate::deploy::ExecutableItem::StoredContractByName { name, .. } => Some(
            LookupKey::ContractByName { name },
        ),
        crate::deploy::ExecutableItem::StoredVersionedContractByHash { hash, .. } => Some(
            LookupKey::PackageByHash { hash },
        ),
        crate::deploy::ExecutableItem::StoredVersionedContractByName { name, .. } => Some(
            LookupKey::PackageByName { name },
        ),
    }
}

/// The lookup an executable item needs, if any.
pub fn item_lookup(item: &crate::deploy::ExecutableItem) -> (r: Option<LookupKey>)
    ensures
        r == item_lookup_key(*item),
{
    match item {
        crate::deploy::ExecutableItem::ModuleBytes { .. } => None,
        crate::deploy::ExecutableItem::Transfer => None,
        crate::deploy::ExecutableItem::StoredContractByHash { hash, .. } => Some(
            LookupKey::ContractByHash { hash: *hash },
        ),
        crate::deploy::ExecutableItem::StoredContractByName { name, .. } => Some(
            LookupKey::ContractByName { name: *name },
        ),
        crate::deploy::ExecutableItem::StoredVersionedContractByHash { hash, .. } => Some(
            LookupKey::PackageByHash { hash: *hash },
        ),
        crate::deploy::ExecutableItem::StoredVersionedContractByName { name, .. } => Some(
            LookupKey::PackageByName { name: *name },
        ),
    }
}

/// Entering the resolution stage: query the payment reference first, then
/// the session reference; with neither, go straight to storage.
pub open spec fn item_phase_effects(d: Deploy) -> Effects {
    match item_lookup_key(d.payment) {
        Some(k) => query_effects(Query::GetStoredValue { key: k }),
        None => match item_lookup_key(d.session) {
            Some(k) => query_effects(Query::GetStoredValue { key: k }),
            None => store_effects(),
        },
    }
}

fn start_item_phase(d: &Deploy) -> (r: Effects)
    ensures
        r == item_phase_effects(*d),
{
    match item_lookup(&d.payment) {
        Some(k) => Effects {
            query: Some(Query::GetStoredValue { key: k }),
            store: false,
            announcement: None,
            completion: None,
        },
        None => match item_lookup(&d.session) {
            Some(k) => Effects {
                query: Some(Query::GetStoredValue { key: k }),
                store: false,
                announcement: None,
                completion: None,
            },
            None => Effects { query: None, store: true, announcement: None, completion: None },
        },
    }
}

/// What the pipeline does with one event: the state machine's transition
/// relation, written over the per-stage decisions.
pub open spec fn effects_spec(cfg: Config, dcfg: DeployConfig, now: u64, event: AcceptorEvent) -> Effects {
    match event {
        AcceptorEvent::Accept { deploy, source, has_responder } => match structural_failure(
            deploy,
            dcfg,
            now,
        ) {
            Some(e) => reject_effects(deploy, source, has_responder, e),
            None => query_effects(Query::GetAccount { account_hash: deploy.header.account }),
        },
        AcceptorEvent::GetAccountResult { event_metadata, maybe_account } => match account_step_spec(
            event_metadata.source,
            maybe_account,
            event_metadata.deploy.header.account,
        ) {
            AccountStep::Reject(e) => reject_effects(
                event_metadata.deploy,
                event_metadata.source,
                event_metadata.has_responder,
                e,
            ),
            AccountStep::Authorize(account) => match authorization_failure(
                account,
                event_metadata.deploy,
            ) {
                Some(e) => reject_effects(
                    event_metadata.deploy,
                    event_metadata.source,
                    event_metadata.has_responder,
                    e,
                ),
                None => if cfg.verify_accounts {
                    query_effects(Query::GetBalance { purse: account.main_purse })
                } else {
                    item_phase_effects(event_metadata.deploy)
                },
            },
            AccountStep::SkipEconomic => item_phase_effects(event_metadata.deploy),
        },
        AcceptorEvent::GetBalanceResult { event_metadata, maybe_balance_value } => match balance_failure(
            maybe_balance_value,
            dcfg,
        ) {
            Some(e) => reject_effects(
                event_metadata.deploy,
                event_metadata.source,
                event_metadata.has_responder,
                e,
            ),
            None => item_phase_effects(event_metadata.deploy),
        },
        AcceptorEvent::GetStoredValueResult { event_metadata, side, maybe_value } => {
            let item = if side is Payment {
                event_metadata.deploy.payment
            } else {
                event_metadata.deploy.session
            };
            match item_resolution_failure(item, maybe_value) {
                Some(e) => reject_effects(
                    event_metadata.deploy,
                    event_metadata.source,
                    event_metadata.has_responder,
                    e,
                ),
                None => if side is Payment {
                    match item_lookup_key(event_metadata.deploy.session) {
                        Some(k) => query_effects(Query::GetStoredValue { key: k }),
                        None => store_effects(),
                    }
                } else {
                    store_effects()
                },
            }
        },
        AcceptorEvent::PutToStorageResult { event_metadata, is_new } => Effects {
            query: None,
            store: false,
            announcement: Some(
                if is_new {
                    Announcement::AcceptedNewDeploy {
                        deploy_hash: event_metadata.deploy.hash,
                        source: event_metadata.source,
                    }
                } else {
                    Announcement::PutToStorageResult {
                        deploy_hash: event_metadata.deploy.hash,
                        is_new: false,
                    }
                },
            ),
            completion: if event_metadata.has_responder {
                Some(Ok(()))
            } else {
                None
            },
        },
    }
}

impl DeployAcceptor {
    /// Creates the pipeline over the given configuration and limits.
    pub fn new(config: Config, deploy_config: DeployConfig) -> (r: DeployAcceptor)
        ensures
            r == (DeployAcceptor { config, deploy_config }),
    {
        DeployAcceptor { config, deploy_config }
    }

    /// Handles one event of the pipeline. A balance answer for a deploy that
    /// did not come from a client is a contract violation, excluded here;
    /// `try_handle_event` guards it at run time.
    pub fn handle_event(&self, event: AcceptorEvent, now: u64) -> (r: Effects)
        requires
            event matches AcceptorEvent::GetBalanceResult { event_metadata, .. }
                ==> event_metadata.source is Client,
        ensures
            r == effects_spec(self.config, self.deploy_config, now, event),
    {
        match event {
            AcceptorEvent::Accept { deploy, source, has_responder } => {
                match validate_structure(&deploy, &self.deploy_config, now) {
                    Err(e) => Effects {
                        query: None,
                        store: false,
                        announcement: Some(
                            Announcement::InvalidDeploy {
                                deploy_hash: deploy.hash,
                                source,
                                reason: e,
                            },
                        ),
                        completion: if has_responder {
                            Some(Err(e))
                        } else {
                            None
                        },
                    },
                    Ok(()) => Effects {
                        query: Some(Query::GetAccount { account_hash: deploy.header.account }),
                        store: false,
                        announcement: None,
                        completion: None,
                    },
                }
            },
            AcceptorEvent::GetAccountResult { event_metadata, maybe_account } => {
                let account_hash = event_metadata.deploy.header.account;
                match account_step(&event_metadata.source, maybe_account, account_hash) {
                    AccountStep::Reject(e) => Effects {
                        query: None,
                        store: false,
                        announcement: Some(
                            Announcement::InvalidDeploy {
                                deploy_hash: event_metadata.deploy.hash,
                                source: event_metadata.source,
                                reason: e,
                            },
                        ),
                        completion: if event_metadata.has_responder {
                            Some(Err(e))
                        } else {
                            None
                        },
                    },
                    AccountStep::Authorize(account) => {
                        match check_authorization(&account, &event_metadata.deploy) {
                            Err(e) => Effects {
                                query: None,
                                store: false,
                                announcement: Some(
                                    Announcement::InvalidDeploy {
                                        deploy_hash: event_metadata.deploy.hash,
                                        source: event_metadata.source,
                                        reason: e,
                                    },
                                ),
                                completion: if event_metadata.has_responder {
                                    Some(Err(e))
                                } else {
                                    None
                                },
                            },
                            Ok(()) => if self.config.verify_accounts {
                                Effects {
                                    query: Some(Query::GetBalance { purse: account.main_purse }),
                                    store: false,
                                    announcement: None,
                                    completion: None,
                                }
                            } else {
                                start_item_phase(&event_metadata.deploy)
                            },
                        }
                    },
                    AccountStep::SkipEconomic => start_item_phase(&event_metadata.deploy),
                }
            },
            AcceptorEvent::GetBalanceResult { event_metadata, maybe_balance_value } => {
                match check_balance(maybe_balance_value, &self.deploy_config) {
                    Err(e) => Effects {
                        query: None,
                        store: false,
                        announcement: Some(
                            Announcement::InvalidDeploy {
                                deploy_hash: event_metadata.deploy.hash,
                                source: event_metadata.source,
                                reason: e,
                            },
                        ),
                        completion: if event_metadata.has_responder {
                            Some(Err(e))
                        } else {
                            None
                        },
                    },
                    Ok(()) => start_item_phase(&event_metadata.deploy),
                }
            },
            AcceptorEvent::GetStoredValueResult { event_metadata, side, maybe_value } => {
                let decision = if matches!(side, ItemSide::Payment) {
                    crate::validation::resolve_item(&event_metadata.deploy.payment, &maybe_value)
                } else {
                    crate::validation::resolve_item(&event_metadata.deploy.session, &maybe_value)
                };
                match decision {
                    Err(e) => Effects {
                        query: None,
                        store: false,
                        announcement: Some(
                            Announcement::InvalidDeploy {
                                deploy_hash: event_metadata.deploy.hash,
                                source: event_metadata.source,
                                reason: e,
                            },
                        ),
                        completion: if event_metadata.has_responder {
                            Some(Err(e))
                        } else {
                            None
                        },
                    },
                    Ok(()) => if matches!(side, ItemSide::Payment) {
                        match item_lookup(&event_metadata.deploy.session) {
                            Some(k) => Effects {
                                query: Some(Query::GetStoredValue { key: k }),
                                store: false,
                                announcement: None,
                                completion: None,
                            },
                            None => Effects {
                                query: None,
                                store: true,
                                announcement: None,
                                completion: None,
                            },
                        }
                    } else {
                        Effects { query: None, store: true, announcement: None, completion: None }
                    },
                }
            },
            AcceptorEvent::PutToStorageResult { event_metadata, is_new } => Effects {
                query: None,
                store: false,
                announcement: Some(
                    if is_new {
                        Announcement::AcceptedNewDeploy {
                            deploy_hash: event_metadata.deploy.hash,
                            source: event_metadata.source,
                        }
                    } else {
                        Announcement::PutToStorageResult {
                            deploy_hash: event_metadata.deploy.hash,
                            is_new: false,
                        }
                    },
                ),
                completion: if event_metadata.has_responder {
                    Some(Ok(()))
                } else {
                    None
                },
            },
        }
    }

    /// Handles one event, guarding the stage contracts at run time: a
    /// balance answer for a peer-sourced deploy fails fast as a contract
    /// violation instead of entering the failure taxonomy.
    pub fn try_handle_event(&self, event: AcceptorEvent, now: u64) -> (r: Result<
        Effects,
        ContractViolation,
    >)
        ensures
            r is Err <==> (event matches AcceptorEvent::GetBalanceResult { event_metadata, .. }
                && !(event_metadata.source is Client)),
            r matches Ok(eff) ==> eff == effects_spec(self.config, self.deploy_config, now, event),
    {
        match &event {
            AcceptorEvent::GetBalanceResult { event_metadata, .. } => {
                if !event_metadata.source.from_client() {
                    return Err(ContractViolation);
                }
            },
            _ => {},
        }
        Ok(self.handle_event(event, now))
    }
}

/// The answers the external state services give one submission: the
/// resolved account, the purse balance (`None` when the state root is not
/// found), and the stored values the payment and session references name.
#[derive(Clone, Debug, PartialEq, Eq)]
pub struct StateOracle {
    pub maybe_account: Option<Account>,
    pub maybe_balance: Option<u64>,
    pub payment_value: Option<StoredValue>,
    pub session_value: Option<StoredValue>,
}

/// The resolution stage's decision and queries: the payment reference is
/// looked up and judged first, then the session reference; items needing no
/// lookup pass trivially.
pub open spec fn item_phase(d: Deploy, oracle: StateOracle) -> (Result<(), Error>, Seq<Query>) {
    let pq: Seq<Query> = match item_lookup_key(d.payment) {
        Some(k) => seq![Query::GetStoredValue { key: k }],
        None => seq![],
    };
    match item_resolution_failure(d.payment, oracle.payment_value) {
        Some(e) => (Err(e), pq),
        None => {
            let sq: Seq<Query> = match item_lookup_key(d.session) {
                Some(k) => seq![Query::GetStoredValue { key: k }],
                None => seq![],
            };
            match item_resolution_failure(d.session, oracle.session_value) {
                Some(e) => (Err(e), pq + sq),
                None => (Ok(()), pq + sq),
            }
        },
    }
}

/// The stages after account resolution: a resolved client account is
/// checked for authorization and then, when enabled, balance; a peer deploy
/// skips both; then the item references are resolved.
pub open spec fn economic_and_items(
    d: Deploy,
    source: Source,
    cfg: Config,
    dcfg: DeployConfig,
    oracle: StateOracle,
) -> (Result<(), Error>, Seq<Query>) {
    match account_step_spec(source, oracle.maybe_account, d.header.account) {
        AccountStep::Reject(e) => (Err(e), seq![]),
        AccountStep::Authorize(account) => match authorization_failure(account, d) {
            Some(e) => (Err(e), seq![]),
            None => if cfg.verify_accounts {
                let bq: Seq<Query> = seq![Query::GetBalance { purse: account.main_purse }];
                match balance_failure(oracle.maybe_balance, dcfg) {
                    Some(e) => (Err(e), bq),
                    None => {
                        let t = item_phase(d, oracle);
                        (t.0, bq + t.1)
                    },
                }
            } else {
                item_phase(d, oracle)
            },
        },
        AccountStep::SkipEconomic => item_phase(d, oracle),
    }
}

/// The whole pipeline's decision and issued queries for one submission: a
/// structurally invalid deploy is rejected before any query; otherwise the
/// account query is issued and the remaining stages run in order, stopping
/// at the first failure.
pub open spec fn pipeline_spec(
    d: Deploy,
    source: Source,
    cfg: Config,
    dcfg: DeployConfig,
    now: u64,
    oracle: StateOracle,
) -> (Result<(), Error>, Seq<Query>) {
    match structural_failure(d, dcfg, now) {
        Some(e) => (Err(e), seq![]),
        None => {
            let t = economic_and_items(d, source, cfg, dcfg, oracle);
            (t.0, seq![Query::GetAccount { account_hash: d.header.account }] + t.1)
        },
    }
}

/// The decision of one submission.
pub open spec fn expected_result(
    d: Deploy,
    source: Source,
    cfg: Config,
    dcfg: DeployConfig,
    now: u64,
    oracle: StateOracle,
) -> Result<(), Error> {
    pipeline_spec(d, source, cfg, dcfg, now, oracle).0
}

/// The queries one submission issues, in order.
pub open spec fn expected_queries(
    d: Deploy,
    source: Source,
    cfg: Config,
    dcfg: DeployConfig,
    now: u64,
    oracle: StateOracle,
) -> Seq<Query> {
    pipeline_spec(d, source, cfg, dcfg, now, oracle).1
}

/// The one announcement a submission produces: rejection announces the
/// invalid deploy with its reason; success announces a newly stored deploy,
/// or only the storage result when the deploy was already stored.
pub open spec fn expected_announcement(
    d: Deploy,
    source: Source,
    result: Result<(), Error>,
    was_stored: bool,
) -> Announcement {
    match result {
        Err(e) => Announcement::InvalidDeploy { deploy_hash: d.hash, source, reason: e },
        Ok(_) => if was_stored {
            Announcement::PutToStorageResult { deploy_hash: d.hash, is_new: false }
        } else {
            Announcement::AcceptedNewDeploy { deploy_hash: d.hash, source }
        },
    }
}

/// Everything one finished submission handed back to the runtime: the
/// decision, the queries it issued in order, its one announcement, and the
/// completion delivered if a caller was waiting.
#[derive(Debug, PartialEq, Eq)]
pub struct RunOutcome {
    pub result: Result<(), Error>,
    pub queries: Vec<Query>,
    pub announcements: Vec<Announcement>,
    pub completion: Option<Result<(), Error>>,
}

fn rejection(
    deploy_hash: u64,
    source: Source,
    has_responder: bool,
    e: Error,
    queries: Vec<Query>,
) -> (r: RunOutcome)
    ensures
        r.result == Err::<(), Error>(e),
        r.queries == queries,
        r.announcements@ =~= seq![
            Announcement::InvalidDeploy { deploy_hash, source, reason: e },
        ],
        r.completion == if has_responder {
            Some(Err::<(), Error>(e))
        } else {
            None::<Result<(), Error>>
        },
{
    let mut announcements: Vec<Announcement> = Vec::new();
    announcements.push(Announcement::InvalidDeploy { deploy_hash, source, reason: e });
    RunOutcome {
        result: Err(e),
        queries,
        announcements,
        completion: if has_responder {
            Some(Err(e))
        } else {
            None
        },
    }
}

/// Runs one whole submission against the given state answers: the stages of
/// the pipeline in order, short-circuiting at the first failure, then the
/// storage write and the one announcement. The result, the queries issued
/// and the announcement equal the declarative pipeline specification.
pub fn process_deploy(
    acceptor: &DeployAcceptor,
    deploy: Deploy,
    source: Source,
    has_responder: bool,
    oracle: StateOracle,
    storage: &mut Storage,
    now: u64,
) -> (r: RunOutcome)
    requires
        old(storage).wf(),
    ensures
        final(storage).wf(),
        r.result == expected_result(
            deploy,
            source,
            acceptor.config,
            acceptor.deploy_config,
            now,
            oracle,
        ),
        r.queries@ =~= expected_queries(
            deploy,
            source,
            acceptor.config,
            acceptor.deploy_config,
            now,
            oracle,
        ),
        r.announcements@ =~= seq![
            expected_announcement(
                deploy,
                source,
                r.result,
                old(storage).contains_deploy(deploy.hash),
            ),
        ],
        r.completion == if has_responder {
            Some(r.result)
        } else {
            None::<Result<(), Error>>
        },
        r.result is Ok ==> final(storage).contains_deploy(deploy.hash),
        r.result is Ok && !old(storage).contains_deploy(deploy.hash) ==> find_deploy(
            final(storage).deploys_view(),
            deploy.hash,
        ) == Some(deploy),
        r.result is Ok && !old(storage).contains_deploy(deploy.hash)
            ==> final(storage).deploys_view() =~= old(storage).deploys_view().push(deploy),
        r.result is Ok && old(storage).contains_deploy(deploy.hash)
            ==> final(storage).deploys_view() =~= old(storage).deploys_view(),
        r.result is Err ==> *final(storage) == *old(storage),
        final(storage).blocks_view() =~= old(storage).blocks_view(),
{
    let StateOracle { maybe_account, maybe_balance, payment_value, session_value } = oracle;
    let deploy_hash = deploy.hash;
    let mut queries: Vec<Query> = Vec::new();
    if let Err(e) = validate_structure(&deploy, &acceptor.deploy_config, now) {
        return rejection(deploy_hash, source, has_responder, e, queries);
    }
    queries.push(Query::GetAccount { account_hash: deploy.header.account });
    match account_step(&source, maybe_account, deploy.header.account) {
        AccountStep::Reject(e) => {
            return rejection(deploy_hash, source, has_responder, e, queries);
        },
        AccountStep::Authorize(account) => {
            if let Err(e) = check_authorization(&account, &deploy) {
                return rejection(deploy_hash, source, has_responder, e, queries);
            }
            if acceptor.config.verify_accounts {
                queries.push(Query::GetBalance { purse: account.main_purse });
                if let Err(e) = check_balance(maybe_balance, &acceptor.deploy_config) {
                    return rejection(deploy_hash, source, has_responder, e, queries);
                }
            }
        },
        AccountStep::SkipEconomic => {},
    }
    if let Some(k) = item_lookup(&deploy.payment) {
        queries.push(Query::GetStoredValue { key: k });
    }
    if let Err(e) = crate::validation::resolve_item(&deploy.payment, &payment_value) {
        return rejection(deploy_hash, source, has_responder, e, queries);
    }
    if let Some(k) = item_lookup(&deploy.session) {
        queries.push(Query::GetStoredValue { key: k });
    }
    if let Err(e) = crate::validation::resolve_item(&deploy.session, &session_value) {
        return rejection(deploy_hash, source, has_responder, e, queries);
    }
    let is_new = storage.put_deploy(deploy);
    let mut announcements: Vec<Announcement> = Vec::new();
    if is_new {
        announcements.push(Announcement::AcceptedNewDeploy { deploy_hash, source });
    } else {
        announcements.push(
            Announcement::PutToStorageResult { deploy_hash, is_new: false },
        );
    }
    RunOutcome {
        result: Ok(()),
        queries,
        announcements,
        completion: if has_responder {
            Some(Ok(()))
        } else {
            None
        },
    }
}

/// Builds the event that submits a deploy for admission.
pub fn schedule_accept_deploy(deploy: Deploy, source: Source, has_responder: bool) -> (r:
    AcceptorEvent)
    ensures
        r == (AcceptorEvent::Accept { deploy, source, has_responder }),
{
    AcceptorEvent::Accept { deploy, source, has_responder }
}

/// Builds a balance answer as if the balance check had been issued for this
/// deploy. For a peer-sourced deploy the pipeline must refuse the event as a
/// contract violation rather than absorb it into the failure taxonomy.
pub fn inject_balance_check_for_peer(deploy: Deploy, source: Source, has_responder: bool) -> (r:
    AcceptorEvent)
    ensures
        r == (AcceptorEvent::GetBalanceResult {
            event_metadata: EventMetadata { deploy, source, has_responder },
            maybe_balance_value: None,
        }),
{
    let event_metadata = EventMetadata::new(deploy, source, has_responder);
    AcceptorEvent::GetBalanceResult { event_metadata, maybe_balance_value: None }
}

} // verus!
