//! The evaluation driver: turns one test vector into a verdict by
//! building settings, enumerating candidate paths, enforcing trust-anchor
//! constraints, validating each path, and applying the peer-name and
//! unsupported-feature policy. The whole pipeline is a function of the
//! vector and the default validation time alone, so evaluating the same
//! vector twice yields the same verdict and the same observed statuses.
use vstd::prelude::*;
use crate::enforce::{enforce_trust_anchor_constraints, spec_enforce_parts};
use crate::graph::{
    find_candidate_paths, lemma_paths_for_target_wf, path_views, spec_paths_for_target, PathImage,
};
use crate::model::{
    CertData, CertificationPathSettings, EvaluationOutcome, ExpectedOutcome,
    FailureReason, KeyUsageFlag, KnownCaseConfig, KnownEku, PathValidationStatus, PeerKind,
    PeerNameData, SkipReason, TestcaseData, TestcaseVerdict, KU_CRL_SIGN, KU_DATA_ENCIPHERMENT,
    KU_DECIPHER_ONLY, KU_DIGITAL_SIGNATURE, KU_ENCIPHER_ONLY, KU_KEY_AGREEMENT, KU_KEY_CERT_SIGN,
    KU_KEY_ENCIPHERMENT, KU_NON_REPUDIATION,
};
use crate::names::{
    convert_peer_names_to_name_constraints_settings, deep, has_unsupported_name_constraint,
    has_unsupported_san, names_of, san_within_permitted_subtrees, spec_has_unsupported_name_constraint,
    spec_has_unsupported_san, spec_peer_values, spec_san_within, spec_san_within_lists,
};
use crate::validate::{
    eku_oid, params_of, spec_eku_oid, spec_path_in_range, spec_validate, validate_path,
    ValidationParams,
};
use crate::validate::seqs_contain;

verus! {

/// Some expected peer name is an IP address, a form the peer-name check
/// cannot evaluate.
pub open spec fn spec_peer_ip_flag(pns: Seq<PeerNameData>) -> bool {
    exists|i: int| 0 <= i < pns.len() && (#[trigger] pns[i]).kind == PeerKind::Ip
}

/// Some certificate of the list carries a name-constraint form the engine
/// cannot evaluate.
pub open spec fn spec_certs_unsupported_nc(cs: Seq<CertData>) -> bool {
    exists|i: int| 0 <= i < cs.len() && spec_has_unsupported_name_constraint(#[trigger] cs[i])
}

/// The vector's unsupported-feature flag: an IP-form expected peer name,
/// or an unevaluable name-constraint form on any anchor or intermediate.
pub open spec fn spec_unsupported_flag(tc: TestcaseData) -> bool {
    spec_peer_ip_flag(tc.peer_names@) || spec_certs_unsupported_nc(tc.trusted@)
        || spec_certs_unsupported_nc(tc.intermediates@)
}

pub fn testcase_has_unsupported_constraint(tc: &TestcaseData) -> (r: bool)
    ensures
        r == spec_unsupported_flag(*tc),
{
    let mut i: usize = 0;
    while i < tc.peer_names.len()
        invariant
            i <= tc.peer_names@.len(),
            forall|k: int| 0 <= k < i ==> (#[trigger] tc.peer_names@[k]).kind != PeerKind::Ip,
        decreases tc.peer_names.len() - i,
    {
        if tc.peer_names[i].kind == PeerKind::Ip {
            return true;
        }
        i += 1;
    }
    let mut j: usize = 0;
    while j < tc.trusted.len()
        invariant
            j <= tc.trusted@.len(),
            !spec_peer_ip_flag(tc.peer_names@),
            forall|k: int|
                0 <= k < j ==> !spec_has_unsupported_name_constraint(#[trigger] tc.trusted@[k]),
        decreases tc.trusted.len() - j,
    {
        if has_unsupported_name_constraint(&tc.trusted[j]) {
            return true;
        }
        j += 1;
    }
    let mut m: usize = 0;
    while m < tc.intermediates.len()
        invariant
            m <= tc.intermediates@.len(),
            !spec_peer_ip_flag(tc.peer_names@),
            !spec_certs_unsupported_nc(tc.trusted@),
            forall|k: int|
                0 <= k < m ==> !spec_has_unsupported_name_constraint(
                    #[trigger] tc.intermediates@[k],
                ),
        decreases tc.intermediates.len() - m,
    {
        if has_unsupported_name_constraint(&tc.intermediates[m]) {
            return true;
        }
        m += 1;
    }
    false
}

/// The key-usage bit this engine assigns to one requested entry.
pub open spec fn spec_ku_bit(f: KeyUsageFlag) -> u16 {
    match f {
        KeyUsageFlag::DigitalSignature => KU_DIGITAL_SIGNATURE,
        KeyUsageFlag::ContentCommitment => KU_NON_REPUDIATION,
        KeyUsageFlag::KeyEncipherment => KU_KEY_ENCIPHERMENT,
        KeyUsageFlag::DataEncipherment => KU_DATA_ENCIPHERMENT,
        KeyUsageFlag::KeyAgreement => KU_KEY_AGREEMENT,
        KeyUsageFlag::KeyCertSign => KU_KEY_CERT_SIGN,
        KeyUsageFlag::CrlSign => KU_CRL_SIGN,
        KeyUsageFlag::EncipherOnly => KU_ENCIPHER_ONLY,
        KeyUsageFlag::DecipherOnly => KU_DECIPHER_ONLY,
    }
}

/// The union of the requested key-usage bits.
pub open spec fn spec_ku_bits(l: Seq<KeyUsageFlag>) -> u16
    decreases l.len(),
{
    if l.len() == 0 {
        0u16
    } else {
        spec_ku_bits(l.drop_last()) | spec_ku_bit(l.last())
    }
}

/// The requested target key usage; absent when the vector requests none.
pub open spec fn spec_target_ku(tc: TestcaseData) -> Option<u16> {
    if tc.key_usage@.len() == 0 {
        Option::None
    } else {
        Option::Some(spec_ku_bits(tc.key_usage@))
    }
}

fn ku_bit(f: KeyUsageFlag) -> (r: u16)
    ensures
        r == spec_ku_bit(f),
{
    match f {
        KeyUsageFlag::DigitalSignature => KU_DIGITAL_SIGNATURE,
        KeyUsageFlag::ContentCommitment => KU_NON_REPUDIATION,
        KeyUsageFlag::KeyEncipherment => KU_KEY_ENCIPHERMENT,
        KeyUsageFlag::DataEncipherment => KU_DATA_ENCIPHERMENT,
        KeyUsageFlag::KeyAgreement => KU_KEY_AGREEMENT,
        KeyUsageFlag::KeyCertSign => KU_KEY_CERT_SIGN,
        KeyUsageFlag::CrlSign => KU_CRL_SIGN,
        KeyUsageFlag::EncipherOnly => KU_ENCIPHER_ONLY,
        KeyUsageFlag::DecipherOnly => KU_DECIPHER_ONLY,
    }
}

fn build_target_key_usage(l: &Vec<KeyUsageFlag>) -> (r: u16)
    ensures
        r == spec_ku_bits(l@),
{
    let mut bits: u16 = 0;
    let mut i: usize = 0;
    while i < l.len()
        invariant
            i <= l@.len(),
            bits == spec_ku_bits(l@.subrange(0, i as int)),
        decreases l.len() - i,
    {
        proof {
            assert(l@.subrange(0, 0) =~= Seq::<KeyUsageFlag>::empty());
        }
        bits = bits | ku_bit(l[i]);
        proof {
            let full = l@.subrange(0, i + 1 as int);
            assert(full.drop_last() =~= l@.subrange(0, i as int));
            assert(full.last() == l@[i as int]);
        }
        i += 1;
    }
    proof {
        assert(l@.subrange(0, l@.len() as int) =~= l@);
        if l@.len() == 0 {
            assert(l@.subrange(0, 0) =~= Seq::<KeyUsageFlag>::empty());
        }
    }
    bits
}

/// The object identifiers of the requested extended-key-usage purposes,
/// in request order.
pub open spec fn spec_req_eku_list(l: Seq<KnownEku>) -> Seq<Seq<u8>>
    decreases l.len(),
{
    if l.len() == 0 {
        Seq::empty()
    } else {
        spec_req_eku_list(l.drop_last()).push(spec_eku_oid(l.last()))
    }
}

/// The requested purposes; absent when the vector requests none.
pub open spec fn spec_req_ekus(tc: TestcaseData) -> Option<Seq<Seq<u8>>> {
    if tc.extended_key_usage@.len() == 0 {
        Option::None
    } else {
        Option::Some(spec_req_eku_list(tc.extended_key_usage@))
    }
}

fn build_eku_list(l: &Vec<KnownEku>) -> (r: Vec<Vec<u8>>)
    ensures
        deep(r@) == spec_req_eku_list(l@),
{
    let mut out: Vec<Vec<u8>> = Vec::new();
    proof {
        assert(deep(out@) =~= Seq::<Seq<u8>>::empty());
        assert(l@.subrange(0, 0) =~= Seq::<KnownEku>::empty());
    }
    let mut i: usize = 0;
    while i < l.len()
        invariant
            i <= l@.len(),
            deep(out@) == spec_req_eku_list(l@.subrange(0, i as int)),
        decreases l.len() - i,
    {
        let ghost prev = deep(out@);
        out.push(eku_oid(l[i]));
        proof {
            let full = l@.subrange(0, i + 1 as int);
            assert(full.drop_last() =~= l@.subrange(0, i as int));
            assert(full.last() == l@[i as int]);
            assert(deep(out@) =~= prev.push(spec_eku_oid(l@[i as int])));
        }
        i += 1;
    }
    proof {
        assert(l@.subrange(0, l@.len() as int) =~= l@);
    }
    out
}

/// The validation time: the vector's own, or the caller's default.
pub open spec fn spec_toi(tc: TestcaseData, default_time: u64) -> u64 {
    match tc.validation_time {
        Option::Some(t) => t,
        Option::None => default_time,
    }
}

/// The validator image of the settings a vector asks for.
pub open spec fn spec_params(tc: TestcaseData, default_time: u64) -> ValidationParams {
    ValidationParams {
        toi: spec_toi(tc, default_time),
        target_ku: spec_target_ku(tc),
        req_ekus: spec_req_ekus(tc),
        eku_path: true,
    }
}

/// Builds the settings object for one vector: requested key usages,
/// extended key usages, maximum chain depth and validation time, with
/// extended-key-usage path processing and trust-anchor constraint
/// enforcement always on.
pub fn build_settings(tc: &TestcaseData, default_time: u64) -> (s: CertificationPathSettings)
    ensures
        params_of(s) == spec_params(*tc, default_time),
        s.initial_path_length_constraint == tc.max_chain_depth,
        s.enforce_trust_anchor_constraints,
        s.time_of_interest == spec_toi(*tc, default_time),
{
    let toi: u64 = match tc.validation_time {
        Some(t) => t,
        None => default_time,
    };
    let target_ku: Option<u16> = if tc.key_usage.len() == 0 {
        None
    } else {
        Some(build_target_key_usage(&tc.key_usage))
    };
    let ekus: Option<Vec<Vec<u8>>> = if tc.extended_key_usage.len() == 0 {
        None
    } else {
        Some(build_eku_list(&tc.extended_key_usage))
    };
    let s = CertificationPathSettings {
        time_of_interest: toi,
        target_key_usage: target_ku,
        extended_key_usage: ekus,
        extended_key_usage_path: true,
        initial_path_length_constraint: tc.max_chain_depth,
        enforce_trust_anchor_constraints: true,
    };
    proof {
        assert(params_of(s).req_ekus == spec_req_ekus(*tc));
    }
    s
}

/// The outcome of the first path that validated: the peer-name
/// approximation for vectors that expect failure, then the
/// unsupported-constraint degradation, then success.
pub open spec fn spec_valid_outcome(
    tc: TestcaseData,
    target: CertData,
    observed: Seq<PathValidationStatus>,
) -> (TestcaseVerdict, Seq<PathValidationStatus>) {
    if tc.expected == ExpectedOutcome::Failure && tc.peer_names@.len() > 0 {
        match target.subject_alt_name {
            Option::None => (
                TestcaseVerdict::Failure(FailureReason::PeerNameWithoutSan),
                observed,
            ),
            Option::Some(san) => if !spec_san_within_lists(
                Seq::empty(),
                spec_peer_values(tc.peer_names@, PeerKind::Rfc822),
                spec_peer_values(tc.peer_names@, PeerKind::Dns),
                Seq::empty(),
                Seq::empty(),
                san@,
            ) {
                (TestcaseVerdict::Failure(FailureReason::PeerNameMismatch), observed)
            } else if spec_has_unsupported_san(san@) {
                (TestcaseVerdict::Skipped(SkipReason::UnsupportedSanInLeaf), observed)
            } else if spec_unsupported_flag(tc) {
                (TestcaseVerdict::Skipped(SkipReason::UnsupportedNameConstraint), observed)
            } else {
                (TestcaseVerdict::Success, observed)
            },
        }
    } else if tc.expected == ExpectedOutcome::Failure && spec_unsupported_flag(tc) {
        (TestcaseVerdict::Skipped(SkipReason::UnsupportedNameConstraint), observed)
    } else {
        (TestcaseVerdict::Success, observed)
    }
}

/// The drive over candidate paths from position `i` on: the first path
/// that validates decides the verdict; enforcement failures and
/// unjudgeable paths stop the drive; other rejections are recorded and
/// the drive continues; an exhausted list is a failure carrying all
/// observed statuses.
pub open spec fn spec_drive(
    tc: TestcaseData,
    target: CertData,
    paths: Seq<PathImage>,
    i: int,
    observed: Seq<PathValidationStatus>,
    pr: ValidationParams,
) -> (TestcaseVerdict, Seq<PathValidationStatus>)
    decreases paths.len() - i,
{
    if i < 0 || i >= paths.len() {
        (TestcaseVerdict::Failure(FailureReason::PathsExhausted), observed)
    } else {
        let p = paths[i];
        match spec_enforce_parts(true, tc.max_chain_depth, tc.trusted@[p.anchor as int]) {
            Result::Err(_) => if tc.expected == ExpectedOutcome::Failure && spec_unsupported_flag(
                tc,
            ) {
                (TestcaseVerdict::Skipped(SkipReason::UnsupportedNameConstraint), observed)
            } else {
                (
                    TestcaseVerdict::Failure(FailureReason::TrustAnchorConstraintProcessing),
                    observed,
                )
            },
            Result::Ok(eff) => match spec_validate(
                tc.trusted@,
                tc.intermediates@,
                target,
                p,
                eff,
                pr,
            ) {
                Result::Err(_) => (
                    TestcaseVerdict::Skipped(SkipReason::PolicyProcessingUnsupported),
                    observed,
                ),
                Result::Ok(st) => if st == PathValidationStatus::Valid {
                    spec_valid_outcome(tc, target, observed)
                } else if tc.expected == ExpectedOutcome::Success && spec_unsupported_flag(tc) {
                    (TestcaseVerdict::Skipped(SkipReason::UnsupportedNameConstraint), observed)
                } else {
                    spec_drive(tc, target, paths, i + 1, observed.push(st), pr)
                },
            },
        }
    }
}

/// The verdict and observed statuses of one vector: vectors declaring
/// signature-algorithm constraints are skipped unjudged; an undecodable
/// target fails unconditionally; otherwise the candidate paths decide.
pub open spec fn spec_evaluate(tc: TestcaseData, default_time: u64) -> (
    TestcaseVerdict,
    Seq<PathValidationStatus>,
) {
    if tc.has_signature_algorithm_constraints {
        (
            TestcaseVerdict::Skipped(SkipReason::SignatureAlgorithmConstraints),
            Seq::empty(),
        )
    } else if tc.target is None {
        (TestcaseVerdict::Failure(FailureReason::UnparseableTarget), Seq::empty())
    } else {
        spec_drive(
            tc,
            tc.target->Some_0,
            spec_paths_for_target(tc.trusted@, tc.intermediates@, tc.target->Some_0),
            0,
            Seq::empty(),
            spec_params(tc, default_time),
        )
    }
}

/// Evaluates one test vector under a default validation time, yielding
/// its verdict and the non-valid statuses observed along the way.
#[verifier::loop_isolation(false)]
pub fn evaluate_testcase(tc: &TestcaseData, default_time: u64) -> (r: EvaluationOutcome)
    ensures
        r.verdict == spec_evaluate(*tc, default_time).0,
        r.observed@ == spec_evaluate(*tc, default_time).1,
{
    if tc.has_signature_algorithm_constraints {
        return EvaluationOutcome {
            verdict: TestcaseVerdict::Skipped(SkipReason::SignatureAlgorithmConstraints),
            observed: Vec::new(),
        };
    }
    let s = build_settings(tc, default_time);
    let flag = testcase_has_unsupported_constraint(tc);
    let target = match &tc.target {
        Some(t) => t,
        None => {
            return EvaluationOutcome {
                verdict: TestcaseVerdict::Failure(FailureReason::UnparseableTarget),
                observed: Vec::new(),
            };
        },
    };
    let paths = find_candidate_paths(&tc.trusted, &tc.intermediates, target);
    let ghost pviews = path_views(paths@);
    let ghost pr = spec_params(*tc, default_time);
    proof {
        lemma_paths_for_target_wf(tc.trusted@, tc.intermediates@, *target);
        assert(pr == params_of(s));
    }
    let mut observed: Vec<PathValidationStatus> = Vec::new();
    let mut i: usize = 0;
    while i < paths.len()
        invariant
            i <= paths@.len(),
            spec_drive(*tc, *target, pviews, i as int, observed@, pr) == spec_drive(
                *tc,
                *target,
                pviews,
                0,
                Seq::empty(),
                pr,
            ),
        decreases paths.len() - i,
    {
        let path = &paths[i];
        proof {
            assert(pviews[i as int] == path@);
            assert((path@.anchor as int) < tc.trusted@.len());
            assert(spec_path_in_range(tc.trusted@, tc.intermediates@, path@));
        }
        let enforced = enforce_trust_anchor_constraints(&s, &tc.trusted[path.anchor]);
        match enforced {
            Err(_) => {
                if tc.expected == ExpectedOutcome::Failure && flag {
                    return EvaluationOutcome {
                        verdict: TestcaseVerdict::Skipped(SkipReason::UnsupportedNameConstraint),
                        observed,
                    };
                } else {
                    return EvaluationOutcome {
                        verdict: TestcaseVerdict::Failure(
                            FailureReason::TrustAnchorConstraintProcessing,
                        ),
                        observed,
                    };
                }
            },
            Ok(eff) => {
                let status = validate_path(&s, &eff, &tc.trusted, &tc.intermediates, target, path);
                match status {
                    Err(_) => {
                        return EvaluationOutcome {
                            verdict: TestcaseVerdict::Skipped(
                                SkipReason::PolicyProcessingUnsupported,
                            ),
                            observed,
                        };
                    },
                    Ok(st) => {
                        if st == PathValidationStatus::Valid {
                            if tc.expected == ExpectedOutcome::Failure && tc.peer_names.len() > 0 {
                                let ncs_opt = convert_peer_names_to_name_constraints_settings(tc);
                                let ncs = ncs_opt.unwrap();
                                match &target.subject_alt_name {
                                    None => {
                                        return EvaluationOutcome {
                                            verdict: TestcaseVerdict::Failure(
                                                FailureReason::PeerNameWithoutSan,
                                            ),
                                            observed,
                                        };
                                    },
                                    Some(san) => {
                                        let within = san_within_permitted_subtrees(&ncs, san);
                                        proof {
                                            assert(names_of(ncs.user_principal_name)
                                                =~= Seq::<Seq<u8>>::empty());
                                            assert(spec_san_within(ncs, san@)
                                                == spec_san_within_lists(
                                                Seq::empty(),
                                                spec_peer_values(tc.peer_names@, PeerKind::Rfc822),
                                                spec_peer_values(tc.peer_names@, PeerKind::Dns),
                                                Seq::empty(),
                                                Seq::empty(),
                                                san@,
                                            ));
                                        }
                                        if !within {
                                            return EvaluationOutcome {
                                                verdict: TestcaseVerdict::Failure(
                                                    FailureReason::PeerNameMismatch,
                                                ),
                                                observed,
                                            };
                                        }
                                        if has_unsupported_san(san) {
                                            return EvaluationOutcome {
                                                verdict: TestcaseVerdict::Skipped(
                                                    SkipReason::UnsupportedSanInLeaf,
                                                ),
                                                observed,
                                            };
                                        }
                                    },
                                }
                            }
                            if tc.expected == ExpectedOutcome::Failure && flag {
                                return EvaluationOutcome {
                                    verdict: TestcaseVerdict::Skipped(
                                        SkipReason::UnsupportedNameConstraint,
                                    ),
                                    observed,
                                };
                            }
                            return EvaluationOutcome { verdict: TestcaseVerdict::Success, observed };
                        } else {
                            if tc.expected == ExpectedOutcome::Success && flag {
                                return EvaluationOutcome {
                                    verdict: TestcaseVerdict::Skipped(
                                        SkipReason::UnsupportedNameConstraint,
                                    ),
                                    observed,
                                };
                            }
                            observed.push(st);
                        }
                    },
                }
            },
        }
        i += 1;
    }
    EvaluationOutcome { verdict: TestcaseVerdict::Failure(FailureReason::PathsExhausted), observed }
}

/// Whether this vector's identifier stands in the supplied configuration
/// of vectors whose upstream expectation the engine deliberately treats
/// as a failure (linter-style checks, known-broken vectors, and the
/// other configured classes).
pub open spec fn spec_expected_failure(cfg: KnownCaseConfig, id: Seq<u8>) -> bool {
    deep(cfg.linter_tests@).contains(id) || deep(cfg.busted_test_cases@).contains(id) || deep(
        cfg.unsupported_application_checks@,
    ).contains(id) || deep(cfg.weak_key_checks@).contains(id) || deep(
        cfg.pathological_checks@,
    ).contains(id) || deep(cfg.known_bugs@).contains(id)
}

pub fn expected_failure(cfg: &KnownCaseConfig, id: &Vec<u8>) -> (r: bool)
    ensures
        r == spec_expected_failure(*cfg, id@),
{
    seqs_contain(&cfg.linter_tests, id) || seqs_contain(&cfg.busted_test_cases, id)
        || seqs_contain(&cfg.unsupported_application_checks, id) || seqs_contain(
        &cfg.weak_key_checks,
        id,
    ) || seqs_contain(&cfg.pathological_checks, id) || seqs_contain(&cfg.known_bugs, id)
}

} // verus!
