use dht_core::chain_pair::ChainPair;
use dht_core::entry::{ChainHeader, Entry, EntryBody, Iso8601, LinkData, Provenance};
use dht_core::error::HolochainError;
use dht_core::validation::{
    classify_validation_failure, EntryLifecycle, ValidationError, ValidationPackage,
    ValidationPackageDefinition, ValidationVerdict,
};
use dht_core::workflows::remove_link::remove_link_workflow;
use dht_core::workflows::{
    run_holding_workflow, CallbackResult, Decision, HoldingWorkflow, PendingValidation, Stage,
    ValidatingWorkflow, WorkflowAction, WorkflowEvent,
};

fn wf_link() -> LinkData {
    LinkData {
        base: "QmBase".to_string(),
        target: "QmTarget".to_string(),
        link_type: "friends".to_string(),
        tag: "t".to_string(),
    }
}

fn wf_pair(body: EntryBody, signer: &str) -> ChainPair {
    let entry = Entry { address: "QmSubject".to_string(), body };
    let header = ChainHeader {
        entry_type: entry.entry_type(),
        entry_address: "QmSubject".to_string(),
        provenances: vec![Provenance { source: signer.to_string(), signature: "sig".to_string() }],
        link: Some("QmPrev".to_string()),
        link_same_type: None,
        link_update_delete: None,
        timestamp: Iso8601::parse("2019-05-05T12:00:00Z".to_string()).unwrap(),
    };
    match ChainPair::try_from_header_and_entry(header, entry) {
        Ok(pair) => pair,
        Err(_) => panic!("header and entry agree"),
    }
}

fn wf_app() -> EntryBody {
    EntryBody::App("post".to_string(), "{}".to_string())
}

fn wf_remove() -> EntryBody {
    EntryBody::LinkRemove(wf_link(), vec!["QmLinkEntry".to_string()])
}

fn wf_start(body: EntryBody, workflow: ValidatingWorkflow, signer: &str) -> HoldingWorkflow {
    let pending = PendingValidation { chain_pair: wf_pair(body, signer), workflow };
    match run_holding_workflow(pending, Some("alice".to_string())) {
        Ok(w) => w,
        Err(_) => panic!("the workflow starts"),
    }
}

fn wf_definition(d: ValidationPackageDefinition) -> WorkflowEvent {
    WorkflowEvent::Definition(Ok(CallbackResult::ValidationPackageDefinition(d)))
}

fn wf_package(pair: &ChainPair) -> ValidationPackage {
    ValidationPackage::only_header(pair.header().clone())
}

fn wf_lifecycle(action: &WorkflowAction) -> EntryLifecycle {
    match action {
        WorkflowAction::Validate(data) => data.lifecycle,
        _ => panic!("validation is asked for"),
    }
}

#[test]
fn unresolved_dependencies_are_retried() {
    let deps = vec!["QmA".to_string(), "QmB".to_string()];
    match classify_validation_failure(ValidationError::UnresolvedDependencies(deps.clone())) {
        ValidationVerdict::Pending(d) => assert_eq!(d, deps),
        _ => panic!("retried later"),
    }
    match classify_validation_failure(ValidationError::UnresolvedDependencies(vec![])) {
        ValidationVerdict::Pending(d) => assert!(d.is_empty()),
        _ => panic!("retried later"),
    }
}

#[test]
fn other_validation_failures_are_final() {
    match classify_validation_failure(ValidationError::Fail("too long".to_string())) {
        ValidationVerdict::Rejected(reason) => assert_eq!(reason, "too long"),
        _ => panic!("rejected"),
    }
    match classify_validation_failure(ValidationError::NotImplemented) {
        ValidationVerdict::Rejected(reason) => assert_eq!(reason, "Validation not implemented"),
        _ => panic!("rejected"),
    }
    match classify_validation_failure(ValidationError::Error(HolochainError::ErrorGeneric(
        "wasm trap".to_string(),
    ))) {
        ValidationVerdict::Rejected(reason) => assert_eq!(reason, "wasm trap"),
        _ => panic!("rejected"),
    }
    match classify_validation_failure(ValidationError::Error(HolochainError::ValidationPending(
        vec!["QmA".to_string()],
    ))) {
        ValidationVerdict::Rejected(reason) => assert_eq!(reason, "Entry not validated - pending"),
        _ => panic!("rejected"),
    }
}

#[test]
fn hold_entry_with_header_only_package() {
    let mut w = wf_start(wf_app(), ValidatingWorkflow::HoldEntry, "bob");
    assert_eq!(w.stage(), Stage::AwaitingDefinition);
    let a = w.step(wf_definition(ValidationPackageDefinition::Entry));
    match &a {
        WorkflowAction::Validate(data) => {
            assert_eq!(data.lifecycle, EntryLifecycle::Data);
            assert_eq!(data.package.chain_header.entry_address, "QmSubject");
            assert!(data.package.source_chain_entries.is_none());
            assert!(data.package.source_chain_headers.is_none());
            assert!(data.package.custom.is_none());
        }
        _ => panic!("validation is asked for"),
    }
    assert_eq!(w.stage(), Stage::AwaitingValidation);
    assert!(matches!(
        w.step(WorkflowEvent::Validated(Ok(()))),
        WorkflowAction::Store(ValidatingWorkflow::HoldEntry)
    ));
    assert_eq!(w.stage(), Stage::AwaitingStorage);
    assert!(matches!(
        w.step(WorkflowEvent::Stored(Ok(()))),
        WorkflowAction::Finish(Ok(Decision::Accepted))
    ));
    assert_eq!(w.stage(), Stage::Finished);
}

#[test]
fn finished_workflow_ignores_events() {
    let mut w = wf_start(wf_app(), ValidatingWorkflow::HoldEntry, "bob");
    w.step(wf_definition(ValidationPackageDefinition::Entry));
    w.step(WorkflowEvent::Validated(Ok(())));
    w.step(WorkflowEvent::Stored(Ok(())));
    assert!(matches!(w.step(WorkflowEvent::Stored(Ok(()))), WorkflowAction::Ignored));
    assert!(matches!(w.step(WorkflowEvent::Validated(Ok(()))), WorkflowAction::Ignored));
    assert!(matches!(
        w.step(wf_definition(ValidationPackageDefinition::Entry)),
        WorkflowAction::Ignored
    ));
    assert_eq!(w.stage(), Stage::Finished);
}

#[test]
fn unexpected_event_is_ignored() {
    let mut w = wf_start(wf_app(), ValidatingWorkflow::HoldEntry, "bob");
    assert!(matches!(w.step(WorkflowEvent::Stored(Ok(()))), WorkflowAction::Ignored));
    assert!(matches!(w.step(WorkflowEvent::Validated(Ok(()))), WorkflowAction::Ignored));
    assert_eq!(w.stage(), Stage::AwaitingDefinition);
}

#[test]
fn author_builds_package_from_own_chain() {
    let mut w = wf_start(wf_app(), ValidatingWorkflow::HoldEntry, "alice");
    assert!(matches!(
        w.step(wf_definition(ValidationPackageDefinition::ChainFull)),
        WorkflowAction::BuildOwnChainPackage
    ));
    assert_eq!(w.stage(), Stage::AwaitingOwnChainPackage);
    let package = wf_package(w.chain_pair());
    let a = w.step(WorkflowEvent::OwnChainPackage(Ok(package)));
    assert_eq!(wf_lifecycle(&a), EntryLifecycle::Data);
}

#[test]
fn own_chain_failure_falls_back_to_source() {
    let mut w = wf_start(wf_app(), ValidatingWorkflow::HoldEntry, "alice");
    w.step(wf_definition(ValidationPackageDefinition::ChainHeaders));
    assert!(matches!(
        w.step(WorkflowEvent::OwnChainPackage(Err(HolochainError::ErrorGeneric("x".to_string())))),
        WorkflowAction::RequestPackageFromSource
    ));
    assert_eq!(w.stage(), Stage::AwaitingSourcePackage);
}

#[test]
fn stranger_requests_package_from_source() {
    let mut w = wf_start(wf_app(), ValidatingWorkflow::HoldEntry, "bob");
    assert!(matches!(
        w.step(wf_definition(ValidationPackageDefinition::ChainEntries)),
        WorkflowAction::RequestPackageFromSource
    ));
    let package = wf_package(w.chain_pair());
    let a = w.step(WorkflowEvent::SourcePackage(Ok(Some(package))));
    assert!(matches!(a, WorkflowAction::Validate(_)));
}

#[test]
fn missing_definition_requests_package_from_source() {
    let mut w = wf_start(wf_app(), ValidatingWorkflow::HoldEntry, "alice");
    assert!(matches!(
        w.step(WorkflowEvent::Definition(Ok(CallbackResult::Fail("x".to_string())))),
        WorkflowAction::RequestPackageFromSource
    ));
    let mut w = wf_start(wf_app(), ValidatingWorkflow::HoldEntry, "alice");
    assert!(matches!(
        w.step(WorkflowEvent::Definition(Err(HolochainError::ErrorGeneric("x".to_string())))),
        WorkflowAction::RequestPackageFromSource
    ));
}

#[test]
fn failed_package_request_is_pending() {
    let mut w = wf_start(wf_app(), ValidatingWorkflow::HoldEntry, "bob");
    w.step(wf_definition(ValidationPackageDefinition::ChainFull));
    match w.step(WorkflowEvent::SourcePackage(Err(HolochainError::ErrorGeneric(
        "timeout".to_string(),
    )))) {
        WorkflowAction::Finish(Err(HolochainError::ValidationPending(d))) => assert!(d.is_empty()),
        _ => panic!("validation has to wait"),
    }
    assert_eq!(w.stage(), Stage::Finished);
}

#[test]
fn source_without_package_is_an_error() {
    let mut w = wf_start(wf_app(), ValidatingWorkflow::HoldEntry, "bob");
    w.step(wf_definition(ValidationPackageDefinition::ChainFull));
    match w.step(WorkflowEvent::SourcePackage(Ok(None))) {
        WorkflowAction::Finish(Err(HolochainError::ErrorGeneric(text))) => {
            assert_eq!(text, "Could not get validation package from source")
        }
        _ => panic!("the source has no package"),
    }
}

#[test]
fn unresolved_dependencies_make_workflow_pending() {
    let mut w = wf_start(wf_app(), ValidatingWorkflow::HoldEntry, "bob");
    w.step(wf_definition(ValidationPackageDefinition::Entry));
    match w.step(WorkflowEvent::Validated(Err(ValidationError::UnresolvedDependencies(vec![
        "QmDep".to_string(),
    ])))) {
        WorkflowAction::Finish(Err(HolochainError::ValidationPending(d))) => {
            assert_eq!(d, vec!["QmDep".to_string()])
        }
        _ => panic!("validation has to wait"),
    }
    assert_eq!(w.stage(), Stage::Finished);
}

#[test]
fn invalid_entry_is_rejected_without_storing() {
    let mut w = wf_start(wf_app(), ValidatingWorkflow::HoldEntry, "bob");
    w.step(wf_definition(ValidationPackageDefinition::Entry));
    match w.step(WorkflowEvent::Validated(Err(ValidationError::Fail("spam".to_string())))) {
        WorkflowAction::Finish(Ok(Decision::Rejected(reason))) => assert_eq!(reason, "spam"),
        _ => panic!("the entry is rejected"),
    }
    assert!(matches!(w.step(WorkflowEvent::Stored(Ok(()))), WorkflowAction::Ignored));
}

#[test]
fn storage_failure_is_passed_on() {
    let mut w = wf_start(wf_app(), ValidatingWorkflow::HoldEntry, "bob");
    w.step(wf_definition(ValidationPackageDefinition::Entry));
    w.step(WorkflowEvent::Validated(Ok(())));
    match w.step(WorkflowEvent::Stored(Err(HolochainError::ErrorGeneric("disk full".to_string())))) {
        WorkflowAction::Finish(Err(HolochainError::ErrorGeneric(text))) => {
            assert_eq!(text, "disk full")
        }
        _ => panic!("the failure is passed on"),
    }
}

#[test]
fn each_workflow_stores_its_own_kind() {
    for (workflow, lifecycle) in [
        (ValidatingWorkflow::HoldLink, EntryLifecycle::Meta),
        (ValidatingWorkflow::HoldEntry, EntryLifecycle::Data),
        (ValidatingWorkflow::UpdateEntry, EntryLifecycle::Meta),
        (ValidatingWorkflow::RemoveEntry, EntryLifecycle::Meta),
    ] {
        let mut w = wf_start(wf_app(), workflow, "bob");
        let a = w.step(wf_definition(ValidationPackageDefinition::Entry));
        assert_eq!(wf_lifecycle(&a), lifecycle);
        match w.step(WorkflowEvent::Validated(Ok(()))) {
            WorkflowAction::Store(kind) => assert_eq!(kind, workflow),
            _ => panic!("storing is asked for"),
        }
        assert!(matches!(
            w.step(WorkflowEvent::Stored(Ok(()))),
            WorkflowAction::Finish(Ok(Decision::Accepted))
        ));
    }
}

#[test]
fn remove_link_needs_link_removal() {
    match remove_link_workflow(wf_pair(wf_app(), "bob"), None) {
        Err(HolochainError::ErrorGeneric(text)) => {
            assert_eq!(text, "remove_link_workflow expects entry to be an Entry::LinkRemove")
        }
        _ => panic!("no link removal"),
    }
    let pending = PendingValidation {
        chain_pair: wf_pair(EntryBody::LinkAdd(wf_link()), "bob"),
        workflow: ValidatingWorkflow::RemoveLink,
    };
    assert!(matches!(
        run_holding_workflow(pending, None),
        Err(HolochainError::ErrorGeneric(_))
    ));
    assert!(remove_link_workflow(wf_pair(wf_remove(), "bob"), None).is_ok());
}

#[test]
fn remove_link_then_holds_the_removal() {
    let mut w = wf_start(wf_remove(), ValidatingWorkflow::RemoveLink, "bob");
    let a = w.step(wf_definition(ValidationPackageDefinition::Entry));
    assert_eq!(wf_lifecycle(&a), EntryLifecycle::Meta);
    assert!(matches!(
        w.step(WorkflowEvent::Validated(Ok(()))),
        WorkflowAction::Store(ValidatingWorkflow::RemoveLink)
    ));
    assert!(matches!(w.step(WorkflowEvent::Stored(Ok(()))), WorkflowAction::GetDefinition));
    assert_eq!(w.stage(), Stage::AwaitingDefinition);
    let a = w.step(wf_definition(ValidationPackageDefinition::Entry));
    assert_eq!(wf_lifecycle(&a), EntryLifecycle::Data);
    assert!(matches!(
        w.step(WorkflowEvent::Validated(Ok(()))),
        WorkflowAction::Store(ValidatingWorkflow::HoldEntry)
    ));
    assert!(matches!(
        w.step(WorkflowEvent::Stored(Ok(()))),
        WorkflowAction::Finish(Ok(Decision::Accepted))
    ));
    assert_eq!(w.stage(), Stage::Finished);
}

#[test]
fn rerun_asks_for_the_same_storage() {
    let run = || {
        let mut stores = Vec::new();
        let mut w = wf_start(wf_remove(), ValidatingWorkflow::RemoveLink, "bob");
        let events = vec![
            wf_definition(ValidationPackageDefinition::Entry),
            WorkflowEvent::Validated(Ok(())),
            WorkflowEvent::Stored(Ok(())),
            wf_definition(ValidationPackageDefinition::Entry),
            WorkflowEvent::Validated(Ok(())),
            WorkflowEvent::Stored(Ok(())),
        ];
        let mut accepted = false;
        for e in events {
            match w.step(e) {
                WorkflowAction::Store(kind) => stores.push(kind),
                WorkflowAction::Finish(Ok(Decision::Accepted)) => accepted = true,
                _ => {}
            }
        }
        assert!(accepted);
        stores
    };
    let first = run();
    let second = run();
    assert_eq!(first, vec![ValidatingWorkflow::RemoveLink, ValidatingWorkflow::HoldEntry]);
    assert_eq!(first, second);
}

#[test]
fn remove_link_rejected_stores_nothing() {
    let mut w = wf_start(wf_remove(), ValidatingWorkflow::RemoveLink, "bob");
    w.step(wf_definition(ValidationPackageDefinition::Entry));
    assert!(matches!(
        w.step(WorkflowEvent::Validated(Err(ValidationError::NotImplemented))),
        WorkflowAction::Finish(Ok(Decision::Rejected(_)))
    ));
    assert_eq!(w.stage(), Stage::Finished);
}
