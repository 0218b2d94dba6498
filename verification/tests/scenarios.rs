//! End-to-end scenarios over real certificate chains: the PEM blobs below
//! are decoded with x509-cert and handed to the engine as plain values.
use certpath::driver::evaluate_testcase;
use certpath::model::{
    BasicConstraintsData, CertData, ExpectedOutcome, FailureReason, GeneralNameValue, KeyUsageFlag,
    KnownEku, NameConstraintsData, PathValidationStatus, PeerKind, PeerNameData, SkipReason,
    TestcaseData, TestcaseVerdict, KU_CRL_SIGN, KU_DATA_ENCIPHERMENT, KU_DECIPHER_ONLY,
    KU_DIGITAL_SIGNATURE, KU_ENCIPHER_ONLY, KU_KEY_AGREEMENT, KU_KEY_CERT_SIGN,
    KU_KEY_ENCIPHERMENT, KU_NON_REPUDIATION,
};
use x509_cert::der::oid::db::rfc5280::{
    ID_CE_BASIC_CONSTRAINTS, ID_CE_EXT_KEY_USAGE, ID_CE_INHIBIT_ANY_POLICY, ID_CE_KEY_USAGE,
    ID_CE_NAME_CONSTRAINTS, ID_CE_POLICY_CONSTRAINTS, ID_CE_POLICY_MAPPINGS,
    ID_CE_SUBJECT_ALT_NAME,
};
use x509_cert::der::{Decode, DecodePem, Encode};
use x509_cert::ext::pkix::name::GeneralName;
use x509_cert::ext::pkix::{
    BasicConstraints, ExtendedKeyUsage, KeyUsage, KeyUsages, NameConstraints, SubjectAltName,
};
use x509_cert::Certificate;

const T_PEM: &str = "-----BEGIN CERTIFICATE-----\nMIIBhzCCAS2gAwIBAgIUVgvQaYF7Y1uJ6BgbXXHgiJKsl1swCgYIKoZIzj0EAwIw\nETEPMA0GA1UEAwwGUm9vdCBUMB4XDTI2MTAxMjAwMzYxNVoXDTQ2MTAwNzAwMzYx\nNVowETEPMA0GA1UEAwwGUm9vdCBUMFkwEwYHKoZIzj0CAQYIKoZIzj0DAQcDQgAE\nZrNOm7WZ7C4uoqujgv7xtqRKUrdigmVwjk7qO8F+wEycGN3AFZea8z68EyALFrHg\nIuJsDRGJvYa1njrotWdzSqNjMGEwHQYDVR0OBBYEFPC7xJ/UjyXR7bojNIM970iL\n20LFMB8GA1UdIwQYMBaAFPC7xJ/UjyXR7bojNIM970iL20LFMA8GA1UdEwEB/wQF\nMAMBAf8wDgYDVR0PAQH/BAQDAgEGMAoGCCqGSM49BAMCA0gAMEUCIAFOVFoJhiED\nPOYR/kYJNgI9w9iAJsrV8i4j1NnCX7x3AiEA/XRqsU04cLA/wKAKuJORcAw+pHgv\nnC5SSzagVmCxiPU=\n-----END CERTIFICATE-----\n";

const I1_PEM: &str = "-----BEGIN CERTIFICATE-----\nMIIBkjCCATmgAwIBAgIUZuK2hOm0phuTMl4izRccnBmgpcMwCgYIKoZIzj0EAwIw\nETEPMA0GA1UEAwwGUm9vdCBUMB4XDTI2MTAxMjAwMzYxNVoXDTQ1MTIxMTAwMzYx\nNVowGjEYMBYGA1UEAwwPSW50ZXJtZWRpYXRlIEkxMFkwEwYHKoZIzj0CAQYIKoZI\nzj0DAQcDQgAERHAJN4dS2Er2qWfGcVSFPZ0VIjSBoNsTLC5o16L9+DN94MvXFRLM\nsH2zO1W9zy5wYZ0Xgj99AJyb+KsxvnxbdaNmMGQwEgYDVR0TAQH/BAgwBgEB/wIB\nADAOBgNVHQ8BAf8EBAMCAQYwHQYDVR0OBBYEFO/J8+DyTmeCXAL570GgZ1VZg9h4\nMB8GA1UdIwQYMBaAFPC7xJ/UjyXR7bojNIM970iL20LFMAoGCCqGSM49BAMCA0cA\nMEQCIEVWTh5q1O7HAaRIUBv/G42LNuroi5l9skzJPxWn9+KIAiAaYPipQw46nf6y\nOKlaHHHR7QNicvl4M0yyhmjJNE9KJw==\n-----END CERTIFICATE-----\n";

const I2_PEM: &str = "-----BEGIN CERTIFICATE-----\nMIIBmjCCAT+gAwIBAgIUJIwOluCNRoX0e77/IX9gVwGDrX8wCgYIKoZIzj0EAwIw\nGjEYMBYGA1UEAwwPSW50ZXJtZWRpYXRlIEkxMB4XDTI2MTAxMjAwMzYxNVoXDTQ1\nMDkwMjAwMzYxNVowGjEYMBYGA1UEAwwPSW50ZXJtZWRpYXRlIEkyMFkwEwYHKoZI\nzj0CAQYIKoZIzj0DAQcDQgAEAyra77T7eAW2j8Y+hae6V9rlVe1vZIAaEINcvl5g\njHWA9984U6JMxU5niBWxZmURHiDomy1pX3dix/B2IAjo86NjMGEwDwYDVR0TAQH/\nBAUwAwEB/zAOBgNVHQ8BAf8EBAMCAgQwHQYDVR0OBBYEFPtcm/5KJboljp9YEPJz\nLlA3HNH2MB8GA1UdIwQYMBaAFO/J8+DyTmeCXAL570GgZ1VZg9h4MAoGCCqGSM49\nBAMCA0kAMEYCIQDrUSb7OUcei2totqnprlEomt8Ap8GUpAOklgArb933PgIhALpc\nm+8ce2VgCLXiHdEaJu43EaFNsY6Rwp+AGcgaKhem\n-----END CERTIFICATE-----\n";

const L1_PEM: &str = "-----BEGIN CERTIFICATE-----\nMIIBvTCCAWOgAwIBAgIUJIwOluCNRoX0e77/IX9gVwGDrX4wCgYIKoZIzj0EAwIw\nGjEYMBYGA1UEAwwPSW50ZXJtZWRpYXRlIEkxMB4XDTI2MTAxMjAwMzYxNVoXDTQ1\nMDkwMjAwMzYxNVowEjEQMA4GA1UEAwwHTGVhZiBMMTBZMBMGByqGSM49AgEGCCqG\nSM49AwEHA0IABCwl4Dprjh/oYv2CUkWHzbC15JrtL4sQmmaQQvRo6+1S5si91jQO\nvEHOmImongV8agMz/sMFSdwKkXNklWDTkP6jgY4wgYswDAYDVR0TAQH/BAIwADAO\nBgNVHQ8BAf8EBAMCB4AwEwYDVR0lBAwwCgYIKwYBBQUHAwEwFgYDVR0RBA8wDYIL\nZXhhbXBsZS5jb20wHQYDVR0OBBYEFN1gPqbKVuV+KwDWK4bPtSQp6ufnMB8GA1Ud\nIwQYMBaAFO/J8+DyTmeCXAL570GgZ1VZg9h4MAoGCCqGSM49BAMCA0gAMEUCIG+i\nmz86dkIVsHXs80WUqkpuVphpTl3rUDZGadb7BObBAiEAtXCiuCtGLrtoHniyw2HO\natPLUCb1m93VSNpP5jHfhjs=\n-----END CERTIFICATE-----\n";

const L2_PEM: &str = "-----BEGIN CERTIFICATE-----\nMIIBvTCCAWOgAwIBAgIUcqJxc5tLfj0GB1ZOD19+abpC2MwwCgYIKoZIzj0EAwIw\nGjEYMBYGA1UEAwwPSW50ZXJtZWRpYXRlIEkyMB4XDTI2MTAxMjAwMzYxNVoXDTQ1\nMDUyNTAwMzYxNVowEjEQMA4GA1UEAwwHTGVhZiBMMjBZMBMGByqGSM49AgEGCCqG\nSM49AwEHA0IABJYEubESD/ukScmrwmC32ohMfyrvx2rSl1Ydkxd+l0USvjDfA+oc\ngUZJUX+H2ylOF7xKB2yav0aGzhMMFaWuL/yjgY4wgYswDAYDVR0TAQH/BAIwADAO\nBgNVHQ8BAf8EBAMCB4AwEwYDVR0lBAwwCgYIKwYBBQUHAwEwFgYDVR0RBA8wDYIL\nZXhhbXBsZS5jb20wHQYDVR0OBBYEFCldrHX8yUuSQZhQaj1aA2G4XgBhMB8GA1Ud\nIwQYMBaAFPtcm/5KJboljp9YEPJzLlA3HNH2MAoGCCqGSM49BAMCA0gAMEUCIQDP\njpTd9WfhS5CGuxm3BBaC/E0lHJ8XKSamwmKsQ6aNOwIgHcFowa2vNFlxlmx5oWD/\nlBvs1XWa+5YnXlb1EKXtnhc=\n-----END CERTIFICATE-----\n";

const T2_PEM: &str = "-----BEGIN CERTIFICATE-----\nMIIBqTCCAVCgAwIBAgIUZvaUR5sJefV5WIsYXzYdWkJwMl8wCgYIKoZIzj0EAwIw\nEjEQMA4GA1UEAwwHUm9vdCBUMjAeFw0yNjEwMTIwMDM2MTVaFw00NjEwMDcwMDM2\nMTVaMBIxEDAOBgNVBAMMB1Jvb3QgVDIwWTATBgcqhkjOPQIBBggqhkjOPQMBBwNC\nAAT8oLGqOpWZtGIgm51oefORfeW+LYvZo2P6HP2GOwesuL9q9yc8hUm+hRMXSG8q\n0RPsoLLZ6pgnjR/PFttbNd7uo4GDMIGAMB0GA1UdDgQWBBRjm069pRaxA2ZoFLLp\ntAm3d6lwNjAfBgNVHSMEGDAWgBRjm069pRaxA2ZoFLLptAm3d6lwNjAPBgNVHRMB\nAf8EBTADAQH/MA4GA1UdDwEB/wQEAwICBDAdBgNVHR4BAf8EEzARoA8wDYILZXhh\nbXBsZS5vcmcwCgYIKoZIzj0EAwIDRwAwRAIgBbkWBXKRiaUr2TA4xO/MDulv1AZJ\n4yEFMnQwBI3G8G4CICk4nqNAwppwz3nwgKuGmRGZwcvxJStzzxBjUSJihSHo\n-----END CERTIFICATE-----\n";

const L3_PEM: &str = "-----BEGIN CERTIFICATE-----\nMIIBtzCCAV2gAwIBAgIUQzRlAjtFrIgpcGBzElXNz4aneKYwCgYIKoZIzj0EAwIw\nEjEQMA4GA1UEAwwHUm9vdCBUMjAeFw0yNjEwMTIwMDM2MTVaFw00NTA5MDIwMDM2\nMTVaMBIxEDAOBgNVBAMMB0xlYWYgTDMwWTATBgcqhkjOPQIBBggqhkjOPQMBBwNC\nAARkgbNMMMAs6qIdKck5e9fFU2RX8lBit6bnKLofEln4t57j8wkY/PSxz5LLAljx\nGmZwf64sv6JrkGA5sHjMSc45o4GQMIGNMAwGA1UdEwEB/wQCMAAwDgYDVR0PAQH/\nBAQDAgeAMBMGA1UdJQQMMAoGCCsGAQUFBwMBMBgGA1UdEQQRMA+CDWhvc3QuZXZp\nbC5jb20wHQYDVR0OBBYEFBVNiSEzgJ6syhZtx2poKxNkZGTJMB8GA1UdIwQYMBaA\nFGObTr2lFrEDZmgUsum0Cbd3qXA2MAoGCCqGSM49BAMCA0gAMEUCIQCAYDbsWX8h\nV6iOB1nmeyvnmDW04mksTuOIQABMy0CYMgIgZCUmmhvYmqzCVE8ACvwfrj8Syg5U\nFft83rnS950dGI4=\n-----END CERTIFICATE-----\n";

const L4_PEM: &str = "-----BEGIN CERTIFICATE-----\nMIIBvzCCAWWgAwIBAgIUZuK2hOm0phuTMl4izRccnBmgpcQwCgYIKoZIzj0EAwIw\nETEPMA0GA1UEAwwGUm9vdCBUMB4XDTI2MTAxMjAwMzYxNVoXDTQ1MDkwMjAwMzYx\nNVowEjEQMA4GA1UEAwwHTGVhZiBMNDBZMBMGByqGSM49AgEGCCqGSM49AwEHA0IA\nBCAjFA2+SUQe8ye85a7yhil6J7aBhkzFGMIbh4eYfycY0Ad9rRkaYoFedOiYm+T9\nVys4yFfmX0st9KjXMKFEf9CjgZkwgZYwDAYDVR0TAQH/BAIwADAOBgNVHQ8BAf8E\nBAMCB4AwEwYDVR0lBAwwCgYIKwYBBQUHAwEwIQYDVR0RBBowGIIQaG9zdC5leGFt\ncGxlLmNvbYcECgAAATAdBgNVHQ4EFgQUXFf9VA7dnt9pyzOTuxj8SNCrPN8wHwYD\nVR0jBBgwFoAU8LvEn9SPJdHtuiM0gz3vSIvbQsUwCgYIKoZIzj0EAwIDSAAwRQIh\nAN4widR6xMqBzLDRhtlr0uAUMrf464jqVnesUd6OVm+hAiAqQL6mKXOtkIT9F5LA\n3MG80vwIsT4o5r/u5wmq4NWiiA==\n-----END CERTIFICATE-----\n";


fn gn_to_value(gn: &GeneralName) -> GeneralNameValue {
    match gn {
        GeneralName::DnsName(d) => GeneralNameValue::Dns(d.as_str().as_bytes().to_vec()),
        GeneralName::Rfc822Name(d) => GeneralNameValue::Rfc822(d.as_str().as_bytes().to_vec()),
        GeneralName::UniformResourceIdentifier(d) => {
            GeneralNameValue::Uri(d.as_str().as_bytes().to_vec())
        }
        GeneralName::DirectoryName(n) => GeneralNameValue::Directory(n.to_der().unwrap()),
        GeneralName::IpAddress(o) => GeneralNameValue::IpAddress(o.as_bytes().to_vec()),
        GeneralName::EdiPartyName(_) => GeneralNameValue::EdiParty,
        _ => GeneralNameValue::Other,
    }
}

fn ku_to_bits(k: &KeyUsage) -> u16 {
    let pairs = [
        (KeyUsages::DigitalSignature, KU_DIGITAL_SIGNATURE),
        (KeyUsages::NonRepudiation, KU_NON_REPUDIATION),
        (KeyUsages::KeyEncipherment, KU_KEY_ENCIPHERMENT),
        (KeyUsages::DataEncipherment, KU_DATA_ENCIPHERMENT),
        (KeyUsages::KeyAgreement, KU_KEY_AGREEMENT),
        (KeyUsages::KeyCertSign, KU_KEY_CERT_SIGN),
        (KeyUsages::CRLSign, KU_CRL_SIGN),
        (KeyUsages::EncipherOnly, KU_ENCIPHER_ONLY),
        (KeyUsages::DecipherOnly, KU_DECIPHER_ONLY),
    ];
    let mut bits = 0u16;
    for (flag, bit) in pairs {
        if k.0.contains(flag) {
            bits |= bit;
        }
    }
    bits
}

fn cert_from_pem(pem: &str) -> CertData {
    let c = Certificate::from_pem(pem.as_bytes()).expect("decode pem");
    let tbs = c.tbs_certificate.to_der().unwrap();
    let signature = c.signature.raw_bytes().to_vec();
    let spki = c.tbs_certificate.subject_public_key_info.to_der().unwrap();
    let subject = if c.tbs_certificate.subject.0.is_empty() {
        Vec::new()
    } else {
        c.tbs_certificate.subject.to_der().unwrap()
    };
    let issuer = if c.tbs_certificate.issuer.0.is_empty() {
        Vec::new()
    } else {
        c.tbs_certificate.issuer.to_der().unwrap()
    };
    let not_before = c.tbs_certificate.validity.not_before.to_unix_duration().as_secs();
    let not_after = c.tbs_certificate.validity.not_after.to_unix_duration().as_secs();
    let mut cd = CertData {
        tbs,
        signature,
        spki,
        subject,
        issuer,
        not_before,
        not_after,
        basic_constraints: None,
        key_usage: None,
        extended_key_usage: None,
        subject_alt_name: None,
        name_constraints: None,
        has_policy_processing_extension: false,
    };
    if let Some(exts) = &c.tbs_certificate.extensions {
        for e in exts {
            let bytes = e.extn_value.as_bytes();
            if e.extn_id == ID_CE_BASIC_CONSTRAINTS {
                let bc = BasicConstraints::from_der(bytes).unwrap();
                cd.basic_constraints = Some(BasicConstraintsData {
                    ca: bc.ca,
                    path_len: bc.path_len_constraint.map(|v| v as u64),
                });
            } else if e.extn_id == ID_CE_KEY_USAGE {
                let ku = KeyUsage::from_der(bytes).unwrap();
                cd.key_usage = Some(ku_to_bits(&ku));
            } else if e.extn_id == ID_CE_EXT_KEY_USAGE {
                let eku = ExtendedKeyUsage::from_der(bytes).unwrap();
                cd.extended_key_usage =
                    Some(eku.0.iter().map(|o| o.as_bytes().to_vec()).collect());
            } else if e.extn_id == ID_CE_SUBJECT_ALT_NAME {
                let san = SubjectAltName::from_der(bytes).unwrap();
                cd.subject_alt_name = Some(san.0.iter().map(gn_to_value).collect());
            } else if e.extn_id == ID_CE_NAME_CONSTRAINTS {
                let nc = NameConstraints::from_der(bytes).unwrap();
                cd.name_constraints = Some(NameConstraintsData {
                    permitted: nc
                        .permitted_subtrees
                        .as_ref()
                        .map(|l| l.iter().map(|s| gn_to_value(&s.base)).collect()),
                    excluded: nc
                        .excluded_subtrees
                        .as_ref()
                        .map(|l| l.iter().map(|s| gn_to_value(&s.base)).collect()),
                });
            } else if e.extn_id == ID_CE_POLICY_MAPPINGS
                || e.extn_id == ID_CE_POLICY_CONSTRAINTS
                || e.extn_id == ID_CE_INHIBIT_ANY_POLICY
            {
                cd.has_policy_processing_extension = true;
            }
        }
    }
    cd
}

const TOI: u64 = 1_800_000_000;

fn vector(
    expected: ExpectedOutcome,
    trusted: Vec<CertData>,
    intermediates: Vec<CertData>,
    target: Option<CertData>,
) -> TestcaseData {
    TestcaseData {
        id: b"scenario".to_vec(),
        expected,
        peer_names: Vec::new(),
        has_signature_algorithm_constraints: false,
        max_chain_depth: None,
        key_usage: vec![KeyUsageFlag::DigitalSignature],
        extended_key_usage: vec![KnownEku::ServerAuth],
        validation_time: Some(TOI),
        trusted,
        intermediates,
        target,
    }
}

#[test]
fn single_candidate_path_validates_and_succeeds() {
    let tc = vector(
        ExpectedOutcome::Success,
        vec![cert_from_pem(T_PEM)],
        vec![cert_from_pem(I1_PEM)],
        Some(cert_from_pem(L1_PEM)),
    );
    let out = evaluate_testcase(&tc, TOI);
    assert_eq!(out.verdict, TestcaseVerdict::Success);
    assert!(out.observed.is_empty());
}

#[test]
fn path_length_violation_fails() {
    let tc = vector(
        ExpectedOutcome::Failure,
        vec![cert_from_pem(T_PEM)],
        vec![cert_from_pem(I1_PEM), cert_from_pem(I2_PEM)],
        Some(cert_from_pem(L2_PEM)),
    );
    let out = evaluate_testcase(&tc, TOI);
    assert_eq!(
        out.verdict,
        TestcaseVerdict::Failure(FailureReason::PathsExhausted)
    );
    assert!(out
        .observed
        .contains(&PathValidationStatus::InvalidPathLength));
}

#[test]
fn trust_anchor_name_constraint_rejects_leaf() {
    let tc = vector(
        ExpectedOutcome::Failure,
        vec![cert_from_pem(T2_PEM)],
        vec![],
        Some(cert_from_pem(L3_PEM)),
    );
    let out = evaluate_testcase(&tc, TOI);
    assert_eq!(
        out.verdict,
        TestcaseVerdict::Failure(FailureReason::PathsExhausted)
    );
    assert_eq!(
        out.observed,
        vec![PathValidationStatus::InvalidNameConstraints]
    );
}

#[test]
fn ip_san_in_leaf_is_skipped_not_failed() {
    let mut tc = vector(
        ExpectedOutcome::Failure,
        vec![cert_from_pem(T_PEM)],
        vec![],
        Some(cert_from_pem(L4_PEM)),
    );
    tc.peer_names = vec![PeerNameData {
        kind: PeerKind::Ip,
        value: b"10.0.0.1".to_vec(),
    }];
    let out = evaluate_testcase(&tc, TOI);
    assert_eq!(
        out.verdict,
        TestcaseVerdict::Skipped(SkipReason::UnsupportedSanInLeaf)
    );
}

#[test]
fn peer_name_mismatch_fails_after_valid_path() {
    let mut tc = vector(
        ExpectedOutcome::Failure,
        vec![cert_from_pem(T_PEM)],
        vec![cert_from_pem(I1_PEM)],
        Some(cert_from_pem(L1_PEM)),
    );
    tc.peer_names = vec![PeerNameData {
        kind: PeerKind::Dns,
        value: b"other.test".to_vec(),
    }];
    let out = evaluate_testcase(&tc, TOI);
    assert_eq!(
        out.verdict,
        TestcaseVerdict::Failure(FailureReason::PeerNameMismatch)
    );
}

#[test]
fn peer_name_match_still_succeeds() {
    let mut tc = vector(
        ExpectedOutcome::Failure,
        vec![cert_from_pem(T_PEM)],
        vec![cert_from_pem(I1_PEM)],
        Some(cert_from_pem(L1_PEM)),
    );
    tc.peer_names = vec![PeerNameData {
        kind: PeerKind::Dns,
        value: b"example.com".to_vec(),
    }];
    let out = evaluate_testcase(&tc, TOI);
    assert_eq!(out.verdict, TestcaseVerdict::Success);
}

#[test]
fn tampered_signature_is_rejected() {
    let mut leaf = cert_from_pem(L1_PEM);
    let last = leaf.signature.len() - 1;
    leaf.signature[last] ^= 0x01;
    let tc = vector(
        ExpectedOutcome::Failure,
        vec![cert_from_pem(T_PEM)],
        vec![cert_from_pem(I1_PEM)],
        Some(leaf),
    );
    let out = evaluate_testcase(&tc, TOI);
    assert_eq!(
        out.verdict,
        TestcaseVerdict::Failure(FailureReason::PathsExhausted)
    );
    assert_eq!(out.observed, vec![PathValidationStatus::InvalidSignature]);
}

#[test]
fn expired_window_is_rejected() {
    let mut tc = vector(
        ExpectedOutcome::Failure,
        vec![cert_from_pem(T_PEM)],
        vec![cert_from_pem(I1_PEM)],
        Some(cert_from_pem(L1_PEM)),
    );
    tc.validation_time = Some(2_500_000_000);
    let out = evaluate_testcase(&tc, TOI);
    assert_eq!(
        out.verdict,
        TestcaseVerdict::Failure(FailureReason::PathsExhausted)
    );
    assert_eq!(out.observed, vec![PathValidationStatus::InvalidValidity]);
}

#[test]
fn missing_requested_eku_is_rejected() {
    let mut tc = vector(
        ExpectedOutcome::Failure,
        vec![cert_from_pem(T_PEM)],
        vec![cert_from_pem(I1_PEM)],
        Some(cert_from_pem(L1_PEM)),
    );
    tc.extended_key_usage = vec![KnownEku::CodeSigning];
    let out = evaluate_testcase(&tc, TOI);
    assert_eq!(
        out.verdict,
        TestcaseVerdict::Failure(FailureReason::PathsExhausted)
    );
    assert_eq!(
        out.observed,
        vec![PathValidationStatus::InvalidExtendedKeyUsage]
    );
}

#[test]
fn missing_requested_key_usage_bit_is_rejected() {
    let mut tc = vector(
        ExpectedOutcome::Failure,
        vec![cert_from_pem(T_PEM)],
        vec![cert_from_pem(I1_PEM)],
        Some(cert_from_pem(L1_PEM)),
    );
    tc.key_usage = vec![KeyUsageFlag::KeyCertSign];
    let out = evaluate_testcase(&tc, TOI);
    assert_eq!(
        out.verdict,
        TestcaseVerdict::Failure(FailureReason::PathsExhausted)
    );
    assert_eq!(out.observed, vec![PathValidationStatus::InvalidKeyUsage]);
}

#[test]
fn requested_max_chain_depth_is_enforced() {
    let mut tc = vector(
        ExpectedOutcome::Failure,
        vec![cert_from_pem(T_PEM)],
        vec![cert_from_pem(I1_PEM)],
        Some(cert_from_pem(L1_PEM)),
    );
    tc.max_chain_depth = Some(0);
    let out = evaluate_testcase(&tc, TOI);
    assert_eq!(
        out.verdict,
        TestcaseVerdict::Failure(FailureReason::PathsExhausted)
    );
    assert_eq!(out.observed, vec![PathValidationStatus::InvalidPathLength]);
}

#[test]
fn peer_name_check_without_san_fails() {
    // The chain is valid, but the vector names an expected peer and the
    // leaf (as decoded) carries no subject-alternative-name extension.
    let mut leaf = cert_from_pem(L1_PEM);
    leaf.subject_alt_name = None;
    let mut tc = vector(
        ExpectedOutcome::Failure,
        vec![cert_from_pem(T_PEM)],
        vec![cert_from_pem(I1_PEM)],
        Some(leaf),
    );
    tc.peer_names = vec![PeerNameData {
        kind: PeerKind::Dns,
        value: b"example.com".to_vec(),
    }];
    let out = evaluate_testcase(&tc, TOI);
    assert_eq!(
        out.verdict,
        TestcaseVerdict::Failure(FailureReason::PeerNameWithoutSan)
    );
}

#[test]
fn non_ca_certificate_cannot_issue() {
    // A chain that runs through the leaf L1 as an issuer: L1 is CA:FALSE,
    // so the basic-constraints check rejects the path there.
    let mut below_leaf = cert_from_pem(L1_PEM);
    below_leaf.subject = b"below".to_vec();
    below_leaf.issuer = cert_from_pem(L1_PEM).subject;
    let tc = vector(
        ExpectedOutcome::Failure,
        vec![cert_from_pem(T_PEM)],
        vec![cert_from_pem(I1_PEM), cert_from_pem(L1_PEM)],
        Some(below_leaf),
    );
    let out = evaluate_testcase(&tc, TOI);
    assert_eq!(
        out.verdict,
        TestcaseVerdict::Failure(FailureReason::PathsExhausted)
    );
    assert_eq!(
        out.observed,
        vec![PathValidationStatus::InvalidBasicConstraints]
    );
}

#[test]
fn name_chaining_mismatch_is_rejected_by_the_validator() {
    // A signature that verifies under the anchor's key but an issuer
    // field that does not chain to the anchor's subject: the validator
    // reports the name-chaining violation itself.
    let anchor = cert_from_pem(I1_PEM);
    let mut leaf = cert_from_pem(L1_PEM);
    leaf.issuer = b"elsewhere".to_vec();
    let settings = certpath::model::CertificationPathSettings {
        time_of_interest: TOI,
        target_key_usage: None,
        extended_key_usage: None,
        extended_key_usage_path: true,
        initial_path_length_constraint: None,
        enforce_trust_anchor_constraints: true,
    };
    let eff = certpath::model::EffectiveSettings {
        initial_max_path: u64::MAX,
        apply_trust_anchor_name_constraints: false,
    };
    let path = certpath::graph::CandidatePath { intermediates: Vec::new(), anchor: 0 };
    let status = certpath::validate::validate_path(
        &settings,
        &eff,
        &vec![anchor],
        &Vec::new(),
        &leaf,
        &path,
    );
    assert_eq!(status, Ok(PathValidationStatus::InvalidNameChaining));
}
