//! Tests of the engine over hand-built certificate values: path
//! enumeration on cyclic stores, the name-constraints engine, the
//! peer-name constraint set, the enforcer and the driver's policy on
//! unsupported features.
use certpath::bytes::bytes_eq;
use certpath::driver::{evaluate_testcase, expected_failure, testcase_has_unsupported_constraint};
use certpath::enforce::enforce_trust_anchor_constraints;
use certpath::graph::find_candidate_paths;
use certpath::model::{
    BasicConstraintsData, CertData, CertificationPathSettings, EnforcementError, ExpectedOutcome,
    FailureReason, GeneralNameValue, KeyUsageFlag, KnownCaseConfig, KnownEku,
    NameConstraintsData, PathValidationStatus, PeerKind, PeerNameData, SkipReason, TestcaseData,
    TestcaseVerdict,
};
use certpath::names::{
    convert_peer_names_to_name_constraints_settings, dns_match, has_unsupported_name_constraint,
    has_unsupported_san, leaf_excluded_hit, leaf_permitted_ok, nc_source_ok, rfc822_match,
    san_within_permitted_subtrees,
};
use certpath::validate::eku_oid;

fn cert(subject: &[u8], issuer: &[u8]) -> CertData {
    CertData {
        tbs: vec![0u8],
        signature: vec![0u8],
        spki: vec![0u8],
        subject: subject.to_vec(),
        issuer: issuer.to_vec(),
        not_before: 0,
        not_after: u64::MAX,
        basic_constraints: Some(BasicConstraintsData { ca: true, path_len: None }),
        key_usage: None,
        extended_key_usage: None,
        subject_alt_name: None,
        name_constraints: None,
        has_policy_processing_extension: false,
    }
}

fn vector(
    expected: ExpectedOutcome,
    trusted: Vec<CertData>,
    intermediates: Vec<CertData>,
    target: Option<CertData>,
) -> TestcaseData {
    TestcaseData {
        id: b"engine".to_vec(),
        expected,
        peer_names: Vec::new(),
        has_signature_algorithm_constraints: false,
        max_chain_depth: None,
        key_usage: Vec::new(),
        extended_key_usage: Vec::new(),
        validation_time: Some(1_000),
        trusted,
        intermediates,
        target,
    }
}

#[test]
fn cyclic_cross_signed_store_terminates_and_excludes_cycle() {
    // A signs B, B signs A (cross-signed pair), and A is also an anchor.
    let anchor_a = cert(b"A", b"A");
    let b_signed_by_a = cert(b"B", b"A");
    let a_signed_by_b = cert(b"A", b"B");
    let target = cert(b"LEAF", b"B");
    let paths = find_candidate_paths(
        &vec![anchor_a],
        &vec![b_signed_by_a, a_signed_by_b],
        &target,
    );
    // LEAF <- B <- anchor A is the only terminating path; the cycle
    // LEAF <- B <- A' <- B ... is cut off and never emitted.
    assert_eq!(paths.len(), 1);
    assert_eq!(paths[0].intermediates, vec![0usize]);
    assert_eq!(paths[0].anchor, 0);
    for w in 0..paths[0].intermediates.len() {
        for v in 0..w {
            assert_ne!(paths[0].intermediates[v], paths[0].intermediates[w]);
        }
    }
}

#[test]
fn enumeration_is_deterministic() {
    let anchor_a = cert(b"A", b"A");
    let b_signed_by_a = cert(b"B", b"A");
    let target = cert(b"LEAF", b"B");
    let first = find_candidate_paths(
        &vec![anchor_a.clone()],
        &vec![b_signed_by_a.clone()],
        &target,
    );
    let second = find_candidate_paths(&vec![anchor_a], &vec![b_signed_by_a], &target);
    assert_eq!(first.len(), second.len());
    for i in 0..first.len() {
        assert_eq!(first[i].intermediates, second[i].intermediates);
        assert_eq!(first[i].anchor, second[i].anchor);
    }
}

#[test]
fn evaluation_is_idempotent() {
    let anchor = cert(b"A", b"A");
    let target = cert(b"LEAF", b"A");
    let tc = vector(
        ExpectedOutcome::Failure,
        vec![anchor],
        vec![],
        Some(target),
    );
    let first = evaluate_testcase(&tc, 77);
    let second = evaluate_testcase(&tc, 77);
    assert_eq!(first.verdict, second.verdict);
    assert_eq!(first.observed, second.observed);
    // The dummy signature cannot verify, so the single path is rejected.
    assert_eq!(
        first.verdict,
        TestcaseVerdict::Failure(FailureReason::PathsExhausted)
    );
    assert_eq!(first.observed, vec![PathValidationStatus::InvalidSignature]);
}

#[test]
fn excluded_subtree_overrides_permitted_suffix() {
    let permitted = vec![GeneralNameValue::Dns(b"example.com".to_vec())];
    let excluded = vec![GeneralNameValue::Dns(b"bad.example.com".to_vec())];
    let mut leaf = cert(b"LEAF", b"A");
    leaf.subject_alt_name = Some(vec![GeneralNameValue::Dns(b"host.bad.example.com".to_vec())]);
    // The name sits inside the permitted subtree...
    assert!(leaf_permitted_ok(&permitted, &leaf));
    // ...but also inside the excluded one, so the source rejects it.
    assert!(leaf_excluded_hit(&excluded, &leaf));
    let nc = NameConstraintsData {
        permitted: Some(permitted),
        excluded: Some(excluded),
    };
    assert!(!nc_source_ok(&nc, &leaf));
}

#[test]
fn dns_matching_respects_label_boundaries() {
    let base = b"example.com".to_vec();
    assert!(dns_match(&base, &b"example.com".to_vec()));
    assert!(dns_match(&base, &b"host.example.com".to_vec()));
    assert!(!dns_match(&base, &b"notexample.com".to_vec()));
    assert!(!dns_match(&base, &b"example.org".to_vec()));
    let dotted = b".example.com".to_vec();
    assert!(dns_match(&dotted, &b"host.example.com".to_vec()));
    assert!(!dns_match(&dotted, &b"example.com".to_vec()));
}

#[test]
fn rfc822_matching_uses_host_portion() {
    let host_base = b"example.com".to_vec();
    assert!(rfc822_match(&host_base, &b"user@example.com".to_vec()));
    assert!(!rfc822_match(&host_base, &b"user@sub.example.com".to_vec()));
    let mailbox_base = b"user@example.com".to_vec();
    assert!(rfc822_match(&mailbox_base, &b"user@example.com".to_vec()));
    assert!(!rfc822_match(&mailbox_base, &b"other@example.com".to_vec()));
    let domain_base = b".example.com".to_vec();
    assert!(rfc822_match(&domain_base, &b"user@sub.example.com".to_vec()));
}

#[test]
fn signature_algorithm_constraints_are_skipped() {
    let mut tc = vector(ExpectedOutcome::Failure, vec![], vec![], None);
    tc.has_signature_algorithm_constraints = true;
    let out = evaluate_testcase(&tc, 0);
    assert_eq!(
        out.verdict,
        TestcaseVerdict::Skipped(SkipReason::SignatureAlgorithmConstraints)
    );
}

#[test]
fn undecodable_target_fails_and_is_never_skipped() {
    let mut tc = vector(ExpectedOutcome::Failure, vec![cert(b"A", b"A")], vec![], None);
    // Even with an unsupported peer-name form flagged, a bad target fails.
    tc.peer_names = vec![PeerNameData { kind: PeerKind::Ip, value: b"1.2.3.4".to_vec() }];
    let out = evaluate_testcase(&tc, 0);
    assert_eq!(
        out.verdict,
        TestcaseVerdict::Failure(FailureReason::UnparseableTarget)
    );
}

#[test]
fn contradictory_trust_anchor_constraints_fail_enforcement() {
    let mut anchor = cert(b"A", b"A");
    anchor.name_constraints = Some(NameConstraintsData {
        permitted: Some(vec![]),
        excluded: None,
    });
    let settings = CertificationPathSettings {
        time_of_interest: 0,
        target_key_usage: None,
        extended_key_usage: None,
        extended_key_usage_path: true,
        initial_path_length_constraint: None,
        enforce_trust_anchor_constraints: true,
    };
    assert_eq!(
        enforce_trust_anchor_constraints(&settings, &anchor),
        Err(EnforcementError::ContradictoryTrustAnchorConstraints)
    );
    let target = cert(b"LEAF", b"A");
    let tc = vector(
        ExpectedOutcome::Failure,
        vec![anchor],
        vec![],
        Some(target),
    );
    let out = evaluate_testcase(&tc, 0);
    assert_eq!(
        out.verdict,
        TestcaseVerdict::Failure(FailureReason::TrustAnchorConstraintProcessing)
    );
}

#[test]
fn unsupported_name_constraint_degrades_rejection_to_skip() {
    let mut anchor = cert(b"A", b"A");
    anchor.name_constraints = Some(NameConstraintsData {
        permitted: Some(vec![GeneralNameValue::IpAddress(vec![10, 0, 0, 0, 255, 0, 0, 0])]),
        excluded: None,
    });
    assert!(has_unsupported_name_constraint(&anchor));
    let target = cert(b"LEAF", b"A");
    let tc = vector(
        ExpectedOutcome::Success,
        vec![anchor],
        vec![],
        Some(target),
    );
    assert!(testcase_has_unsupported_constraint(&tc));
    // The dummy signature is rejected, but with the flag raised and an
    // expected success the rejection degrades to a skip.
    let out = evaluate_testcase(&tc, 0);
    assert_eq!(
        out.verdict,
        TestcaseVerdict::Skipped(SkipReason::UnsupportedNameConstraint)
    );
}

#[test]
fn policy_processing_extension_yields_skip() {
    let anchor = cert(b"A", b"A");
    let mut target = cert(b"LEAF", b"A");
    target.has_policy_processing_extension = true;
    let tc = vector(
        ExpectedOutcome::Failure,
        vec![anchor],
        vec![],
        Some(target),
    );
    let out = evaluate_testcase(&tc, 0);
    assert_eq!(
        out.verdict,
        TestcaseVerdict::Skipped(SkipReason::PolicyProcessingUnsupported)
    );
}

#[test]
fn san_with_ip_entry_is_unsupported() {
    let san = vec![
        GeneralNameValue::Dns(b"example.com".to_vec()),
        GeneralNameValue::IpAddress(vec![10, 0, 0, 1]),
    ];
    assert!(has_unsupported_san(&san));
    let with_other = vec![
        GeneralNameValue::Dns(b"example.com".to_vec()),
        GeneralNameValue::Other,
    ];
    assert!(has_unsupported_san(&with_other));
    let with_edi = vec![GeneralNameValue::EdiParty];
    assert!(has_unsupported_san(&with_edi));
    let plain = vec![GeneralNameValue::Dns(b"example.com".to_vec())];
    assert!(!has_unsupported_san(&plain));
}

#[test]
fn uri_host_extraction_and_matching() {
    assert_eq!(
        certpath::names::uri_host(&b"https://user@host.example.com:8443/a?b#c".to_vec()),
        b"host.example.com".to_vec()
    );
    assert_eq!(
        certpath::names::uri_host(&b"ldap://example.com/dc=e".to_vec()),
        b"example.com".to_vec()
    );
    // A URI constraint base names a host; the URI's host portion, not
    // its whole text, is matched against it.
    let permitted = vec![GeneralNameValue::Uri(b"example.com".to_vec())];
    let mut leaf = cert(b"LEAF", b"A");
    leaf.subject_alt_name = Some(vec![GeneralNameValue::Uri(
        b"https://host.example.com/path".to_vec(),
    )]);
    assert!(leaf_permitted_ok(&permitted, &leaf));
    leaf.subject_alt_name = Some(vec![GeneralNameValue::Uri(
        b"https://example.com.evil.test/path".to_vec(),
    )]);
    assert!(!leaf_permitted_ok(&permitted, &leaf));
}

#[test]
fn other_name_san_degrades_peer_check_to_skip() {
    // A valid-looking vector whose leaf SAN carries a form the peer-name
    // check cannot evaluate: the verdict degrades to a skip rather than
    // a judgement. The dummy signature never verifies, so the rejection
    // path plus the raised flag is exercised instead of a valid one.
    let mut anchor = cert(b"A", b"A");
    anchor.name_constraints = Some(NameConstraintsData {
        permitted: Some(vec![GeneralNameValue::Other]),
        excluded: None,
    });
    let mut target = cert(b"LEAF", b"A");
    target.subject_alt_name = Some(vec![GeneralNameValue::Other]);
    let tc = vector(
        ExpectedOutcome::Success,
        vec![anchor],
        vec![],
        Some(target),
    );
    let out = evaluate_testcase(&tc, 0);
    assert_eq!(
        out.verdict,
        TestcaseVerdict::Skipped(SkipReason::UnsupportedNameConstraint)
    );
}

#[test]
fn peer_name_set_collects_dns_and_rfc822_only() {
    let mut tc = vector(ExpectedOutcome::Failure, vec![], vec![], None);
    assert!(convert_peer_names_to_name_constraints_settings(&tc).is_none());
    tc.peer_names = vec![
        PeerNameData { kind: PeerKind::Dns, value: b"example.com".to_vec() },
        PeerNameData { kind: PeerKind::Rfc822, value: b"user@example.com".to_vec() },
        PeerNameData { kind: PeerKind::Ip, value: b"1.2.3.4".to_vec() },
    ];
    let ncs = convert_peer_names_to_name_constraints_settings(&tc).unwrap();
    assert_eq!(ncs.dns_name.as_ref().unwrap().len(), 1);
    assert_eq!(ncs.rfc822_name.as_ref().unwrap().len(), 1);
    assert!(ncs.user_principal_name.is_none());
    assert!(ncs.directory_name.is_none());
    assert!(ncs.uniform_resource_identifier.is_none());
    let san_good = vec![GeneralNameValue::Dns(b"example.com".to_vec())];
    assert!(san_within_permitted_subtrees(&ncs, &san_good));
    let san_bad = vec![GeneralNameValue::Dns(b"other.test".to_vec())];
    assert!(!san_within_permitted_subtrees(&ncs, &san_bad));
}

#[test]
fn known_case_configuration_drives_expected_failure() {
    let cfg = KnownCaseConfig {
        weak_key_checks: vec![b"weak-1".to_vec()],
        known_bugs: vec![b"bug-1".to_vec()],
        pathological_checks: vec![],
        unsupported_application_checks: vec![],
        busted_test_cases: vec![b"busted-1".to_vec()],
        linter_tests: vec![b"lint-1".to_vec(), b"lint-2".to_vec()],
    };
    assert!(expected_failure(&cfg, &b"lint-2".to_vec()));
    assert!(expected_failure(&cfg, &b"weak-1".to_vec()));
    assert!(expected_failure(&cfg, &b"bug-1".to_vec()));
    assert!(expected_failure(&cfg, &b"busted-1".to_vec()));
    assert!(!expected_failure(&cfg, &b"other".to_vec()));
}

#[test]
fn eku_identifiers_are_the_rfc_values() {
    assert_eq!(
        eku_oid(KnownEku::ServerAuth),
        vec![0x2b, 0x06, 0x01, 0x05, 0x05, 0x07, 0x03, 0x01]
    );
    assert_eq!(eku_oid(KnownEku::AnyExtendedKeyUsage), vec![0x55, 0x1d, 0x25, 0x00]);
}

#[test]
fn byte_equality_is_content_equality() {
    assert!(bytes_eq(&b"abc".to_vec(), &b"abc".to_vec()));
    assert!(!bytes_eq(&b"abc".to_vec(), &b"abd".to_vec()));
    assert!(!bytes_eq(&b"abc".to_vec(), &b"ab".to_vec()));
}

#[test]
fn key_usage_request_drops_through_when_leaf_has_no_extension() {
    // A leaf without a key-usage extension is unconstrained; the dummy
    // signature still fails, which keeps the verdict a failure.
    let anchor = cert(b"A", b"A");
    let target = cert(b"LEAF", b"A");
    let mut tc = vector(
        ExpectedOutcome::Failure,
        vec![anchor],
        vec![],
        Some(target),
    );
    tc.key_usage = vec![KeyUsageFlag::DigitalSignature, KeyUsageFlag::KeyAgreement];
    let out = evaluate_testcase(&tc, 0);
    assert_eq!(out.observed, vec![PathValidationStatus::InvalidSignature]);
}

#[test]
fn store_collects_anchors_and_intermediates() {
    let mut store = certpath::graph::CertStore::new();
    store.add_trust_anchor(cert(b"A", b"A"));
    store.add_intermediate(cert(b"B", b"A"));
    let target = cert(b"LEAF", b"B");
    let paths = store.get_paths_for_target(&target);
    assert_eq!(paths.len(), 1);
    assert_eq!(paths[0].intermediates, vec![0usize]);
    assert_eq!(paths[0].anchor, 0);
}

#[test]
fn directory_subtree_matches_by_leading_rdns() {
    // Two hand-written DER names: the base holds one relative
    // distinguished name, the subject the same one followed by another.
    let base = vec![0x30u8, 0x02, 0xAA, 0xBB];
    let subject = vec![0x30u8, 0x04, 0xAA, 0xBB, 0xCC, 0xDD];
    let permitted = vec![GeneralNameValue::Directory(base.clone())];
    let mut leaf = cert(b"x", b"A");
    leaf.subject = subject.clone();
    assert!(leaf_permitted_ok(&permitted, &leaf));
    // The containment is not symmetric...
    let wider = vec![GeneralNameValue::Directory(subject)];
    leaf.subject = base;
    assert!(!leaf_permitted_ok(&wider, &leaf));
    // ...and a different leading name does not match.
    let other = vec![GeneralNameValue::Directory(vec![0x30u8, 0x02, 0xAA, 0xFF])];
    leaf.subject = vec![0x30u8, 0x04, 0xAA, 0xBB, 0xCC, 0xDD];
    assert!(!leaf_permitted_ok(&other, &leaf));
}
