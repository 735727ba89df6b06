use dht_core::build_from_dht::{
    can_publish, try_make_validation_package_dht, BuildAction, BuildStage, DhtPackageBuilder,
    GET_TIMEOUT_MS,
};
use dht_core::chain_pair::ChainPair;
use dht_core::entry::{ChainHeader, Entry, EntryBody, EntryType, Iso8601, Provenance};
use dht_core::error::HolochainError;
use dht_core::validation::{ValidationPackage, ValidationPackageDefinition};
use dht_core::workflows::{try_make_local_validation_package, CallbackResult, LocalPackage};

fn vp_header(entry_type: EntryType, entry_address: &str, link: Option<&str>, signer: &str) -> ChainHeader {
    ChainHeader {
        entry_type,
        entry_address: entry_address.to_string(),
        provenances: vec![Provenance { source: signer.to_string(), signature: "sig".to_string() }],
        link: link.map(|s| s.to_string()),
        link_same_type: None,
        link_update_delete: None,
        timestamp: Iso8601::parse("2019-05-05T12:00:00Z".to_string()).unwrap(),
    }
}

fn vp_app_entry(address: &str, app_type: &str) -> Entry {
    Entry {
        address: address.to_string(),
        body: EntryBody::App(app_type.to_string(), "{}".to_string()),
    }
}

fn vp_pair(link: Option<&str>, signer: &str) -> ChainPair {
    let entry = vp_app_entry("QmSubject", "post");
    let header = vp_header(entry.entry_type(), "QmSubject", link, signer);
    match ChainPair::try_from_header_and_entry(header, entry) {
        Ok(pair) => pair,
        Err(_) => panic!("header and entry agree"),
    }
}

fn vp_header_entry(address: &str, header: ChainHeader) -> Option<Entry> {
    Some(Entry { address: address.to_string(), body: EntryBody::ChainHeader(header) })
}

fn vp_definition(d: ValidationPackageDefinition) -> Result<CallbackResult, HolochainError> {
    Ok(CallbackResult::ValidationPackageDefinition(d))
}

fn vp_is_bare(package: &ValidationPackage) -> bool {
    package.source_chain_entries.is_none()
        && package.source_chain_headers.is_none()
        && package.custom.is_none()
}

fn vp_start(
    link: Option<&str>,
    d: ValidationPackageDefinition,
    private: Vec<EntryType>,
) -> (DhtPackageBuilder, BuildAction) {
    match try_make_validation_package_dht(&vp_pair(link, "bob"), vp_definition(d), private) {
        Ok(started) => started,
        Err(_) => panic!("the build starts"),
    }
}

fn vp_fetch(action: &BuildAction) -> String {
    match action {
        BuildAction::Fetch(address) => address.clone(),
        _ => panic!("a fetch is asked for"),
    }
}

/// A chain of three headers behind the subject: H1 (post, public), H2
/// (secret, private), H3 (post, public, first of the chain).
fn vp_walk_three(builder: &mut DhtPackageBuilder, first: BuildAction) -> BuildAction {
    assert_eq!(vp_fetch(&first), "QmH1");
    let a = builder.step(vp_header_entry(
        "QmH1",
        vp_header(EntryType::App("post".to_string()), "QmE1", Some("QmH2"), "bob"),
    ));
    assert_eq!(vp_fetch(&a), "QmH2");
    let a = builder.step(vp_header_entry(
        "QmH2",
        vp_header(EntryType::App("secret".to_string()), "QmE2", Some("QmH3"), "bob"),
    ));
    assert_eq!(vp_fetch(&a), "QmH3");
    builder.step(vp_header_entry(
        "QmH3",
        vp_header(EntryType::App("post".to_string()), "QmE3", None, "bob"),
    ))
}

#[test]
fn local_package_for_entry_definition_is_header_only() {
    for (signer, agent) in [("alice", Some("alice")), ("bob", Some("alice")), ("bob", None)] {
        let pair = vp_pair(Some("QmH1"), signer);
        let agent = agent.map(|s| s.to_string());
        match try_make_local_validation_package(
            &pair,
            vp_definition(ValidationPackageDefinition::Entry),
            &agent,
        ) {
            LocalPackage::Ready(package) => {
                assert!(vp_is_bare(&package));
                assert_eq!(package.chain_header.entry_address, "QmSubject");
                assert_eq!(package.chain_header.link, Some("QmH1".to_string()));
            }
            _ => panic!("the header is all that is needed"),
        }
    }
}

#[test]
fn local_package_needs_authorship() {
    let definitions = || {
        vec![
            ValidationPackageDefinition::ChainEntries,
            ValidationPackageDefinition::ChainHeaders,
            ValidationPackageDefinition::ChainFull,
            ValidationPackageDefinition::Custom("x".to_string()),
        ]
    };
    for d in definitions() {
        let pair = vp_pair(None, "alice");
        assert!(matches!(
            try_make_local_validation_package(&pair, vp_definition(d), &Some("alice".to_string())),
            LocalPackage::FromOwnChain
        ));
    }
    for d in definitions() {
        let pair = vp_pair(None, "bob");
        assert!(matches!(
            try_make_local_validation_package(&pair, vp_definition(d), &Some("alice".to_string())),
            LocalPackage::Unavailable(HolochainError::CannotBuildLocally)
        ));
    }
    let pair = vp_pair(None, "alice");
    assert!(matches!(
        try_make_local_validation_package(
            &pair,
            vp_definition(ValidationPackageDefinition::ChainFull),
            &None
        ),
        LocalPackage::Unavailable(HolochainError::CannotBuildLocally)
    ));
}

#[test]
fn local_package_without_definition() {
    let pair = vp_pair(None, "alice");
    let agent = Some("alice".to_string());
    match try_make_local_validation_package(
        &pair,
        Ok(CallbackResult::Fail("no such zome".to_string())),
        &agent,
    ) {
        LocalPackage::Unavailable(HolochainError::ErrorGeneric(text)) => {
            assert_eq!(text, "no such zome")
        }
        _ => panic!("the callback failed"),
    }
    match try_make_local_validation_package(
        &pair,
        Ok(CallbackResult::NotImplemented("no callback".to_string())),
        &agent,
    ) {
        LocalPackage::Unavailable(HolochainError::ErrorGeneric(text)) => assert_eq!(
            text,
            "ValidationPackage callback not implemented for post (no callback)"
        ),
        _ => panic!("the callback is missing"),
    }
    assert!(matches!(
        try_make_local_validation_package(&pair, Err(HolochainError::NetworkUninitialized), &agent),
        LocalPackage::Unavailable(HolochainError::NetworkUninitialized)
    ));
}

#[test]
fn signer_is_found_among_several() {
    let mut header = vp_header(EntryType::AgentId, "QmA", None, "bob");
    header.provenances.push(Provenance { source: "carol".to_string(), signature: "s".to_string() });
    assert!(header.is_signed_by(&"bob".to_string()));
    assert!(header.is_signed_by(&"carol".to_string()));
    assert!(!header.is_signed_by(&"alice".to_string()));
    header.provenances.clear();
    assert!(!header.is_signed_by(&"bob".to_string()));
}

#[test]
fn fetch_timeout_is_half_a_second() {
    assert_eq!(GET_TIMEOUT_MS, 500);
}

#[test]
fn dht_build_does_not_start_without_definition() {
    let pair = vp_pair(Some("QmH1"), "bob");
    match try_make_validation_package_dht(
        &pair,
        Ok(CallbackResult::Fail("broken".to_string())),
        vec![],
    ) {
        Err(HolochainError::ErrorGeneric(text)) => assert_eq!(text, "broken"),
        _ => panic!("no build without a definition"),
    }
    match try_make_validation_package_dht(
        &pair,
        Ok(CallbackResult::NotImplemented("why".to_string())),
        vec![],
    ) {
        Err(HolochainError::ErrorGeneric(text)) => {
            assert_eq!(text, "ValidationPackage callback not implemented for post (why)")
        }
        _ => panic!("no build without a definition"),
    }
    assert!(matches!(
        try_make_validation_package_dht(&pair, Err(HolochainError::CannotBuildLocally), vec![]),
        Err(HolochainError::CannotBuildLocally)
    ));
}

#[test]
fn dht_build_for_first_header_finishes_at_once() {
    let (builder, action) = vp_start(None, ValidationPackageDefinition::ChainFull, vec![]);
    match action {
        BuildAction::Finished(package) => {
            assert_eq!(package.chain_header.entry_address, "QmSubject");
            assert_eq!(package.source_chain_headers.map(|h| h.len()), Some(0));
            assert_eq!(package.source_chain_entries.map(|e| e.len()), Some(0));
            assert!(package.custom.is_none());
        }
        _ => panic!("nothing to walk"),
    }
    assert!(matches!(builder.stage(), BuildStage::Done));
    assert_eq!(builder.headers_walked(), 0);
}

#[test]
fn dht_build_entry_definition_still_walks() {
    let (mut builder, first) = vp_start(Some("QmH1"), ValidationPackageDefinition::Entry, vec![]);
    match vp_walk_three(&mut builder, first) {
        BuildAction::Finished(package) => {
            assert!(vp_is_bare(&package));
            assert_eq!(package.chain_header.entry_address, "QmSubject");
        }
        _ => panic!("the package is complete after the walk"),
    }
    assert_eq!(builder.headers_walked(), 3);
}

#[test]
fn dht_build_chain_headers() {
    let (mut builder, first) =
        vp_start(Some("QmH1"), ValidationPackageDefinition::ChainHeaders, vec![]);
    match vp_walk_three(&mut builder, first) {
        BuildAction::Finished(package) => {
            let headers = package.source_chain_headers.unwrap();
            let addresses: Vec<&str> = headers.iter().map(|h| h.entry_address.as_str()).collect();
            assert_eq!(addresses, vec!["QmE1", "QmE2", "QmE3"]);
            assert!(package.source_chain_entries.is_none());
            assert!(package.custom.is_none());
        }
        _ => panic!("the package is complete after the walk"),
    }
}

#[test]
fn dht_build_custom_keeps_text_and_drops_chain() {
    let (mut builder, first) = vp_start(
        Some("QmH1"),
        ValidationPackageDefinition::Custom("my evidence".to_string()),
        vec![],
    );
    match vp_walk_three(&mut builder, first) {
        BuildAction::Finished(package) => {
            assert_eq!(package.custom, Some("my evidence".to_string()));
            assert!(package.source_chain_headers.is_none());
            assert!(package.source_chain_entries.is_none());
        }
        _ => panic!("the package is complete after the walk"),
    }
}

#[test]
fn dht_build_chain_full_collects_public_entries() {
    let private = vec![EntryType::App("secret".to_string())];
    let (mut builder, first) = vp_start(Some("QmH1"), ValidationPackageDefinition::ChainFull, private);
    let a = vp_walk_three(&mut builder, first);
    assert!(matches!(builder.stage(), BuildStage::Collecting));
    assert_eq!(vp_fetch(&a), "QmE1");
    let a = builder.step(Some(vp_app_entry("QmE1", "post")));
    assert_eq!(vp_fetch(&a), "QmE3");
    match builder.step(Some(vp_app_entry("QmE3", "post"))) {
        BuildAction::Finished(package) => {
            let headers = package.source_chain_headers.unwrap();
            assert_eq!(headers.len(), 3);
            assert_eq!(headers.len(), builder.headers_walked());
            let entries = package.source_chain_entries.unwrap();
            let addresses: Vec<&str> = entries.iter().map(|e| e.address.as_str()).collect();
            assert_eq!(addresses, vec!["QmE1", "QmE3"]);
            assert!(package.custom.is_none());
        }
        _ => panic!("the package is complete"),
    }
    assert!(matches!(builder.step(None), BuildAction::Ignored));
    assert!(matches!(builder.stage(), BuildStage::Done));
}

#[test]
fn dht_build_chain_entries_has_no_headers() {
    let (mut builder, first) =
        vp_start(Some("QmH1"), ValidationPackageDefinition::ChainEntries, vec![]);
    let a = vp_walk_three(&mut builder, first);
    assert_eq!(vp_fetch(&a), "QmE1");
    let a = builder.step(Some(vp_app_entry("QmE1", "post")));
    assert_eq!(vp_fetch(&a), "QmE2");
    let a = builder.step(Some(vp_app_entry("QmE2", "secret")));
    assert_eq!(vp_fetch(&a), "QmE3");
    match builder.step(Some(vp_app_entry("QmE3", "post"))) {
        BuildAction::Finished(package) => {
            assert!(package.source_chain_headers.is_none());
            assert_eq!(package.source_chain_entries.map(|e| e.len()), Some(3));
        }
        _ => panic!("the package is complete"),
    }
}

#[test]
fn dht_build_all_private_needs_no_entries() {
    let private = vec![EntryType::App("secret".to_string()), EntryType::App("post".to_string())];
    let (mut builder, first) = vp_start(Some("QmH1"), ValidationPackageDefinition::ChainFull, private);
    match vp_walk_three(&mut builder, first) {
        BuildAction::Finished(package) => {
            assert_eq!(package.source_chain_headers.map(|h| h.len()), Some(3));
            assert_eq!(package.source_chain_entries.map(|e| e.len()), Some(0));
        }
        _ => panic!("no entry is public"),
    }
}

#[test]
fn dht_build_fails_on_missing_header() {
    let (mut builder, first) = vp_start(Some("QmH1"), ValidationPackageDefinition::Entry, vec![]);
    assert_eq!(vp_fetch(&first), "QmH1");
    match builder.step(None) {
        BuildAction::Failed(HolochainError::DependencyFetchFailed(a)) => assert_eq!(a, "QmH1"),
        _ => panic!("the walk fails"),
    }
    assert!(matches!(builder.step(None), BuildAction::Ignored));
}

#[test]
fn dht_build_fails_on_entry_that_is_no_header() {
    let (mut builder, _) = vp_start(Some("QmH1"), ValidationPackageDefinition::ChainHeaders, vec![]);
    let a = builder.step(vp_header_entry(
        "QmH1",
        vp_header(EntryType::App("post".to_string()), "QmE1", Some("QmH2"), "bob"),
    ));
    assert_eq!(vp_fetch(&a), "QmH2");
    match builder.step(Some(vp_app_entry("QmH2", "post"))) {
        BuildAction::Failed(HolochainError::DependencyFetchFailed(a)) => assert_eq!(a, "QmH2"),
        _ => panic!("the walk fails"),
    }
}

#[test]
fn dht_build_fails_on_missing_entry() {
    let (mut builder, first) = vp_start(Some("QmH1"), ValidationPackageDefinition::ChainFull, vec![]);
    let a = vp_walk_three(&mut builder, first);
    assert_eq!(vp_fetch(&a), "QmE1");
    let a = builder.step(Some(vp_app_entry("QmE1", "post")));
    assert_eq!(vp_fetch(&a), "QmE2");
    match builder.step(None) {
        BuildAction::Failed(HolochainError::DependencyFetchFailed(a)) => assert_eq!(a, "QmE2"),
        _ => panic!("the collection fails"),
    }
    assert!(matches!(builder.stage(), BuildStage::Done));
}

#[test]
fn dht_build_detects_cycle() {
    let (mut builder, _) = vp_start(Some("QmH1"), ValidationPackageDefinition::ChainHeaders, vec![]);
    let a = builder.step(vp_header_entry(
        "QmH1",
        vp_header(EntryType::App("post".to_string()), "QmE1", Some("QmH2"), "bob"),
    ));
    assert_eq!(vp_fetch(&a), "QmH2");
    match builder.step(vp_header_entry(
        "QmH2",
        vp_header(EntryType::App("post".to_string()), "QmE2", Some("QmH1"), "bob"),
    )) {
        BuildAction::Failed(HolochainError::CycleDetected(a)) => assert_eq!(a, "QmH1"),
        _ => panic!("the chain loops"),
    }
    let (mut builder, _) = vp_start(Some("QmH1"), ValidationPackageDefinition::ChainHeaders, vec![]);
    match builder.step(vp_header_entry(
        "QmH1",
        vp_header(EntryType::App("post".to_string()), "QmE1", Some("QmH1"), "bob"),
    )) {
        BuildAction::Failed(HolochainError::CycleDetected(a)) => assert_eq!(a, "QmH1"),
        _ => panic!("the header points at itself"),
    }
}

#[test]
fn private_types_are_not_published() {
    let private = vec![EntryType::Dna, EntryType::App("secret".to_string())];
    assert!(!can_publish(&EntryType::Dna, &private));
    assert!(!can_publish(&EntryType::App("secret".to_string()), &private));
    assert!(can_publish(&EntryType::App("post".to_string()), &private));
    assert!(can_publish(&EntryType::LinkAdd, &private));
    assert!(can_publish(&EntryType::Dna, &vec![]));
}

#[test]
fn only_header_package_is_bare() {
    let package = ValidationPackage::only_header(vp_header(EntryType::AgentId, "QmA", None, "a"));
    assert!(vp_is_bare(&package));
    assert_eq!(package.chain_header.entry_address, "QmA");
}
