use deploy_acceptor::acceptor::Announcement;
use deploy_acceptor::error::{DeployParameterFailure, Error};
use deploy_acceptor::scenario::{
    run_deploy_acceptor, ContractPackageScenario, ContractScenario, TestScenario,
};

#[test]
fn should_accept_valid_deploy_from_peer() {
    let run = run_deploy_acceptor(TestScenario::FromPeerValidDeploy);
    assert!(run.outcome.unwrap().is_ok());
    assert!(run.deploy_stored);
}

#[test]
fn should_reject_invalid_deploy_from_peer() {
    let run = run_deploy_acceptor(TestScenario::FromPeerInvalidDeploy);
    assert!(matches!(
        run.outcome,
        Some(Err(Error::InvalidDeployConfiguration(_)))
    ));
    assert!(!run.deploy_stored);
}

#[test]
fn should_accept_valid_deploy_from_client() {
    let run = run_deploy_acceptor(TestScenario::FromClientValidDeploy);
    assert!(run.outcome.unwrap().is_ok());
    assert!(run.deploy_stored);
}

#[test]
fn should_reject_invalid_deploy_from_client() {
    let run = run_deploy_acceptor(TestScenario::FromClientInvalidDeploy);
    assert!(matches!(
        run.outcome,
        Some(Err(Error::InvalidDeployConfiguration(_)))
    ));
    assert!(!run.deploy_stored);
}

#[test]
fn should_reject_valid_deploy_from_client_for_missing_account() {
    let run = run_deploy_acceptor(TestScenario::FromClientMissingAccount);
    assert!(matches!(
        run.outcome,
        Some(Err(Error::InvalidDeployParameters {
            failure: DeployParameterFailure::NonexistentAccount { .. },
        }))
    ));
    assert!(!run.deploy_stored);
}

#[test]
fn should_reject_valid_deploy_for_account_with_invalid_associated_keys() {
    let run = run_deploy_acceptor(TestScenario::AccountWithInvalidAssociatedKeys);
    assert!(matches!(
        run.outcome,
        Some(Err(Error::InvalidDeployParameters {
            failure: DeployParameterFailure::InvalidAssociatedKeys,
        }))
    ));
    assert!(!run.deploy_stored);
}

#[test]
fn should_reject_valid_deploy_for_account_with_insufficient_weight() {
    let run = run_deploy_acceptor(TestScenario::AccountWithInsufficientWeight);
    assert!(matches!(
        run.outcome,
        Some(Err(Error::InvalidDeployParameters {
            failure: DeployParameterFailure::InsufficientDeploySignatureWeight,
        }))
    ));
    assert!(!run.deploy_stored);
}

#[test]
fn should_reject_valid_deploy_from_client_for_insufficient_balance() {
    let run = run_deploy_acceptor(TestScenario::FromClientInsufficientBalance);
    assert!(matches!(
        run.outcome,
        Some(Err(Error::InvalidDeployParameters {
            failure: DeployParameterFailure::InsufficientBalance { .. },
        }))
    ));
    assert!(!run.deploy_stored);
}

#[test]
fn should_reject_valid_deploy_from_client_for_unknown_balance() {
    let run = run_deploy_acceptor(TestScenario::AccountWithUnknownBalance);
    assert!(matches!(
        run.outcome,
        Some(Err(Error::InvalidDeployParameters {
            failure: DeployParameterFailure::UnknownBalance,
        }))
    ));
    assert!(!run.deploy_stored);
}

#[test]
fn should_accept_repeated_valid_deploy_from_peer() {
    let run = run_deploy_acceptor(TestScenario::FromPeerRepeatedValidDeploy);
    assert!(run.outcome.unwrap().is_ok());
    assert!(run.deploy_stored);
    assert!(run
        .announcements
        .iter()
        .any(|a| matches!(a, Announcement::PutToStorageResult { is_new: false, .. })));
    assert!(!run
        .announcements
        .iter()
        .any(|a| matches!(a, Announcement::AcceptedNewDeploy { .. })));
}

#[test]
fn should_accept_repeated_valid_deploy_from_client() {
    let run = run_deploy_acceptor(TestScenario::FromClientRepeatedValidDeploy);
    assert!(run.outcome.unwrap().is_ok());
    assert!(run.deploy_stored);
    assert!(run
        .announcements
        .iter()
        .any(|a| matches!(a, Announcement::PutToStorageResult { is_new: false, .. })));
    assert!(!run
        .announcements
        .iter()
        .any(|a| matches!(a, Announcement::AcceptedNewDeploy { .. })));
}

#[test]
fn should_accept_deploy_with_valid_custom_payment() {
    let test_scenario = TestScenario::DeployWithCustomPaymentContract(ContractScenario::Valid);
    let run = run_deploy_acceptor(test_scenario);
    assert!(run.outcome.unwrap().is_ok());
    assert!(run.deploy_stored);
}

#[test]
fn should_reject_deploy_with_missing_custom_payment_contract_by_name() {
    let test_scenario =
        TestScenario::DeployWithCustomPaymentContract(ContractScenario::MissingContractAtName);
    let run = run_deploy_acceptor(test_scenario);
    assert!(matches!(
        run.outcome,
        Some(Err(Error::InvalidDeployParameters {
            failure: DeployParameterFailure::NonexistentContractAtName { .. },
        }))
    ));
    assert!(!run.deploy_stored);
}

#[test]
fn should_reject_deploy_with_missing_custom_payment_contract_by_hash() {
    let test_scenario =
        TestScenario::DeployWithCustomPaymentContract(ContractScenario::MissingContractAtHash);
    let run = run_deploy_acceptor(test_scenario);
    assert!(matches!(
        run.outcome,
        Some(Err(Error::InvalidDeployParameters {
            failure: DeployParameterFailure::NonexistentContractAtHash { .. },
        }))
    ));
    assert!(!run.deploy_stored);
}

#[test]
fn should_reject_deploy_with_missing_entry_point_custom_payment() {
    let test_scenario =
        TestScenario::DeployWithCustomPaymentContract(ContractScenario::MissingEntryPoint);
    let run = run_deploy_acceptor(test_scenario);
    assert!(matches!(
        run.outcome,
        Some(Err(Error::InvalidDeployParameters {
            failure: DeployParameterFailure::NonexistentContractEntryPoint { .. },
        }))
    ));
    assert!(!run.deploy_stored);
}

#[test]
fn should_accept_deploy_with_valid_payment_contract_package_by_name() {
    let test_scenario =
        TestScenario::DeployWithCustomPaymentContractPackage(ContractPackageScenario::Valid);
    let run = run_deploy_acceptor(test_scenario);
    assert!(run.outcome.unwrap().is_ok());
    assert!(run.deploy_stored);
}

#[test]
fn should_reject_deploy_with_missing_payment_contract_package_at_name() {
    let test_scenario = TestScenario::DeployWithCustomPaymentContractPackage(
        ContractPackageScenario::MissingPackageAtName,
    );
    let run = run_deploy_acceptor(test_scenario);
    assert!(matches!(
        run.outcome,
        Some(Err(Error::InvalidDeployParameters {
            failure: DeployParameterFailure::NonexistentContractPackageAtName { .. },
        }))
    ));
    assert!(!run.deploy_stored);
}

#[test]
fn should_reject_deploy_with_missing_payment_contract_package_at_hash() {
    let test_scenario = TestScenario::DeployWithCustomPaymentContractPackage(
        ContractPackageScenario::MissingPackageAtHash,
    );
    let run = run_deploy_acceptor(test_scenario);
    assert!(matches!(
        run.outcome,
        Some(Err(Error::InvalidDeployParameters {
            failure: DeployParameterFailure::NonexistentContractPackageAtHash { .. },
        }))
    ));
    assert!(!run.deploy_stored);
}

#[test]
fn should_reject_deploy_with_missing_version_in_payment_contract_package() {
    let test_scenario = TestScenario::DeployWithCustomPaymentContractPackage(
        ContractPackageScenario::MissingContractVersion,
    );
    let run = run_deploy_acceptor(test_scenario);
    assert!(matches!(
        run.outcome,
        Some(Err(Error::InvalidDeployParameters {
            failure: DeployParameterFailure::InvalidContractAtVersion { .. },
        }))
    ));
    assert!(!run.deploy_stored);
}

#[test]
fn should_accept_deploy_with_valid_session_contract() {
    let test_scenario = TestScenario::DeployWithSessionContract(ContractScenario::Valid);
    let run = run_deploy_acceptor(test_scenario);
    assert!(run.outcome.unwrap().is_ok());
    assert!(run.deploy_stored);
}

#[test]
fn should_reject_deploy_with_missing_session_contract_by_hash() {
    let test_scenario =
        TestScenario::DeployWithSessionContract(ContractScenario::MissingContractAtHash);
    let run = run_deploy_acceptor(test_scenario);
    assert!(matches!(
        run.outcome,
        Some(Err(Error::InvalidDeployParameters {
            failure: DeployParameterFailure::NonexistentContractAtHash { .. },
        }))
    ));
    assert!(!run.deploy_stored);
}

#[test]
fn should_reject_deploy_with_missing_session_contract_by_name() {
    let test_scenario =
        TestScenario::DeployWithSessionContract(ContractScenario::MissingContractAtName);
    let run = run_deploy_acceptor(test_scenario);
    assert!(matches!(
        run.outcome,
        Some(Err(Error::InvalidDeployParameters {
            failure: DeployParameterFailure::NonexistentContractAtName { .. },
        }))
    ));
    assert!(!run.deploy_stored);
}

#[test]
fn should_reject_deploy_with_missing_entry_point_in_session_contract() {
    let test_scenario =
        TestScenario::DeployWithSessionContract(ContractScenario::MissingEntryPoint);
    let run = run_deploy_acceptor(test_scenario);
    assert!(matches!(
        run.outcome,
        Some(Err(Error::InvalidDeployParameters {
            failure: DeployParameterFailure::NonexistentContractEntryPoint { .. },
        }))
    ));
    assert!(!run.deploy_stored);
}

#[test]
fn should_accept_deploy_with_valid_session_contract_package() {
    let test_scenario =
        TestScenario::DeployWithSessionContractPackage(ContractPackageScenario::Valid);
    let run = run_deploy_acceptor(test_scenario);
    assert!(run.outcome.unwrap().is_ok());
    assert!(run.deploy_stored);
}

#[test]
fn should_reject_deploy_with_missing_session_contract_package_at_name() {
    let test_scenario = TestScenario::DeployWithSessionContractPackage(
        ContractPackageScenario::MissingPackageAtName,
    );
    let run = run_deploy_acceptor(test_scenario);
    assert!(matches!(
        run.outcome,
        Some(Err(Error::InvalidDeployParameters {
            failure: DeployParameterFailure::NonexistentContractPackageAtName { .. },
        }))
    ));
    assert!(!run.deploy_stored);
}

#[test]
fn should_reject_deploy_with_missing_session_contract_package_at_hash() {
    let test_scenario = TestScenario::DeployWithSessionContractPackage(
        ContractPackageScenario::MissingPackageAtHash,
    );
    let run = run_deploy_acceptor(test_scenario);
    assert!(matches!(
        run.outcome,
        Some(Err(Error::InvalidDeployParameters {
            failure: DeployParameterFailure::NonexistentContractPackageAtHash { .. },
        }))
    ));
    assert!(!run.deploy_stored);
}

#[test]
fn should_reject_deploy_with_missing_version_in_session_contract_package() {
    let test_scenario = TestScenario::DeployWithCustomPaymentContractPackage(
        ContractPackageScenario::MissingContractVersion,
    );
    let run = run_deploy_acceptor(test_scenario);
    assert!(matches!(
        run.outcome,
        Some(Err(Error::InvalidDeployParameters {
            failure: DeployParameterFailure::InvalidContractAtVersion { .. },
        }))
    ));
    assert!(!run.deploy_stored);
}

#[test]
fn should_reject_deploy_with_empty_module_bytes_in_session() {
    let run = run_deploy_acceptor(TestScenario::DeployWithEmptySessionModuleBytes);
    assert!(matches!(
        run.outcome,
        Some(Err(Error::InvalidDeployParameters {
            failure: DeployParameterFailure::MissingModuleBytes,
        }))
    ));
    assert!(!run.deploy_stored);
}

#[test]
fn should_reject_deploy_with_transfer_in_payment() {
    let run = run_deploy_acceptor(TestScenario::DeployWithNativeTransferInPayment);
    assert!(matches!(
        run.outcome,
        Some(Err(Error::InvalidDeployParameters {
            failure: DeployParameterFailure::InvalidPaymentVariant,
        }))
    ));
    assert!(!run.deploy_stored);
}

#[test]
#[should_panic]
fn should_panic_when_balance_checking_for_deploy_sent_by_peer() {
    let run = run_deploy_acceptor(TestScenario::BalanceCheckForDeploySentByPeer);
    if run.violation {
        panic!("balance check was invoked for a peer-sourced deploy");
    }
    assert!(run.outcome.unwrap().is_ok());
}

#[test]
fn every_scenario_decision_matches_its_catalogue_entry() {
    let scenarios = vec![
        TestScenario::FromPeerInvalidDeploy,
        TestScenario::FromPeerValidDeploy,
        TestScenario::FromPeerRepeatedValidDeploy,
        TestScenario::FromClientInvalidDeploy,
        TestScenario::FromClientMissingAccount,
        TestScenario::FromClientInsufficientBalance,
        TestScenario::FromClientValidDeploy,
        TestScenario::FromClientRepeatedValidDeploy,
        TestScenario::AccountWithInsufficientWeight,
        TestScenario::AccountWithInvalidAssociatedKeys,
        TestScenario::AccountWithUnknownBalance,
        TestScenario::DeployWithCustomPaymentContract(ContractScenario::Valid),
        TestScenario::DeployWithCustomPaymentContract(ContractScenario::MissingContractAtHash),
        TestScenario::DeployWithCustomPaymentContract(ContractScenario::MissingContractAtName),
        TestScenario::DeployWithCustomPaymentContract(ContractScenario::MissingEntryPoint),
        TestScenario::DeployWithCustomPaymentContractPackage(ContractPackageScenario::Valid),
        TestScenario::DeployWithCustomPaymentContractPackage(
            ContractPackageScenario::MissingPackageAtHash,
        ),
        TestScenario::DeployWithCustomPaymentContractPackage(
            ContractPackageScenario::MissingPackageAtName,
        ),
        TestScenario::DeployWithCustomPaymentContractPackage(
            ContractPackageScenario::MissingContractVersion,
        ),
        TestScenario::DeployWithSessionContract(ContractScenario::Valid),
        TestScenario::DeployWithSessionContract(ContractScenario::MissingContractAtHash),
        TestScenario::DeployWithSessionContract(ContractScenario::MissingContractAtName),
        TestScenario::DeployWithSessionContract(ContractScenario::MissingEntryPoint),
        TestScenario::DeployWithSessionContractPackage(ContractPackageScenario::Valid),
        TestScenario::DeployWithSessionContractPackage(
            ContractPackageScenario::MissingPackageAtHash,
        ),
        TestScenario::DeployWithSessionContractPackage(
            ContractPackageScenario::MissingPackageAtName,
        ),
        TestScenario::DeployWithSessionContractPackage(
            ContractPackageScenario::MissingContractVersion,
        ),
        TestScenario::DeployWithNativeTransferInPayment,
        TestScenario::DeployWithEmptySessionModuleBytes,
    ];
    for scenario in scenarios {
        let run = run_deploy_acceptor(scenario);
        assert_eq!(
            run.outcome.unwrap().is_ok(),
            scenario.is_valid_deploy_case(),
            "decision mismatch for {:?}",
            scenario
        );
        assert_eq!(
            run.deploy_stored,
            scenario.is_valid_deploy_case(),
            "storage mismatch for {:?}",
            scenario
        );
    }
}
