//! Global properties of the evaluation pipeline, stated and proved over
//! the same spec functions that the executable functions' contracts use.
use vstd::prelude::*;
use crate::driver::{spec_drive, spec_evaluate, spec_params, spec_unsupported_flag};
use crate::names::spec_peer_values;
use crate::enforce::spec_enforce_parts;
use crate::graph::{spec_paths_for_target, PathImage};
use crate::model::{
    CertData, EvaluationOutcome, ExpectedOutcome, FailureReason, NameConstraintsData,
    PathValidationStatus, PeerKind, TestcaseData, TestcaseVerdict, ValidatorError,
};
use crate::names::{
    spec_has_unsupported_san, spec_leaf_excluded_hit, spec_nc_source_ok, spec_san_within_lists,
};
use crate::validate::{spec_validate, ValidationParams};

verus! {

/// The target certificate of a vector whose target decoded.
pub open spec fn law_target(tc: TestcaseData) -> CertData {
    tc.target->Some_0
}

/// The candidate paths of a vector.
pub open spec fn law_paths(tc: TestcaseData) -> Seq<PathImage> {
    spec_paths_for_target(tc.trusted@, tc.intermediates@, law_target(tc))
}

/// The enforcement result for the anchor of candidate path `i`.
pub open spec fn law_enforce(tc: TestcaseData, i: int) -> bool {
    spec_enforce_parts(
        true,
        tc.max_chain_depth,
        tc.trusted@[law_paths(tc)[i].anchor as int],
    ) is Ok
}

/// The validation outcome of candidate path `i`.
pub open spec fn law_outcome(tc: TestcaseData, default_time: u64, i: int) -> Result<
    PathValidationStatus,
    ValidatorError,
> {
    spec_validate(
        tc.trusted@,
        tc.intermediates@,
        law_target(tc),
        law_paths(tc)[i],
        spec_enforce_parts(
            true,
            tc.max_chain_depth,
            tc.trusted@[law_paths(tc)[i].anchor as int],
        )->Ok_0,
        spec_params(tc, default_time),
    )
}

/// The peer-name approximation passes for the target: the vector names no
/// expected peer, or the target's subject-alternative names all fall
/// within the expected names' subtrees.
pub open spec fn law_peer_check_passes(tc: TestcaseData) -> bool {
    tc.peer_names@.len() == 0 || (law_target(tc).subject_alt_name matches Some(san)
        && spec_san_within_lists(
        Seq::empty(),
        spec_peer_values(tc.peer_names@, PeerKind::Rfc822),
        spec_peer_values(tc.peer_names@, PeerKind::Dns),
        Seq::empty(),
        Seq::empty(),
        san@,
    ))
}

proof fn lemma_drive_success(
    tc: TestcaseData,
    default_time: u64,
    observed: Seq<PathValidationStatus>,
    i: int,
)
    requires
        tc.expected == ExpectedOutcome::Success,
        !spec_unsupported_flag(tc),
        tc.target is Some,
        0 <= i <= law_paths(tc).len(),
        forall|k: int| i <= k < law_paths(tc).len() ==> #[trigger] law_enforce(tc, k),
        forall|k: int|
            i <= k < law_paths(tc).len() ==> #[trigger] law_outcome(tc, default_time, k) is Ok,
    ensures
        (spec_drive(
            tc,
            law_target(tc),
            law_paths(tc),
            i,
            observed,
            spec_params(tc, default_time),
        ).0 == TestcaseVerdict::Success) <==> exists|k: int|
            i <= k < law_paths(tc).len() && #[trigger] law_outcome(tc, default_time, k)
                == Result::<PathValidationStatus, ValidatorError>::Ok(
                PathValidationStatus::Valid,
            ),
    decreases law_paths(tc).len() - i,
{
    let paths = law_paths(tc);
    let pr = spec_params(tc, default_time);
    if i >= paths.len() {
    } else {
        assert(law_enforce(tc, i));
        assert(law_outcome(tc, default_time, i) is Ok);
        let st = law_outcome(tc, default_time, i)->Ok_0;
        if st == PathValidationStatus::Valid {
            assert(spec_drive(tc, law_target(tc), paths, i, observed, pr).0
                == TestcaseVerdict::Success);
        } else {
            lemma_drive_success(tc, default_time, observed.push(st), i + 1);
            assert forall|k: int|
                i <= k < paths.len() && #[trigger] law_outcome(tc, default_time, k)
                    == Result::<PathValidationStatus, ValidatorError>::Ok(
                    PathValidationStatus::Valid,
                ) implies i + 1 <= k by {
                if k == i {
                    assert(st == PathValidationStatus::Valid);
                }
            }
        }
    }
}

/// A vector that expects success, raises no unsupported-feature flag, and
/// whose paths all enforce and evaluate cleanly, succeeds exactly when
/// some candidate path validates.
pub proof fn lemma_success_iff_valid_path(tc: TestcaseData, default_time: u64)
    requires
        !tc.has_signature_algorithm_constraints,
        tc.target is Some,
        tc.expected == ExpectedOutcome::Success,
        !spec_unsupported_flag(tc),
        forall|k: int| 0 <= k < law_paths(tc).len() ==> #[trigger] law_enforce(tc, k),
        forall|k: int|
            0 <= k < law_paths(tc).len() ==> #[trigger] law_outcome(tc, default_time, k) is Ok,
    ensures
        (spec_evaluate(tc, default_time).0 == TestcaseVerdict::Success) <==> exists|k: int|
            0 <= k < law_paths(tc).len() && #[trigger] law_outcome(tc, default_time, k)
                == Result::<PathValidationStatus, ValidatorError>::Ok(
                PathValidationStatus::Valid,
            ),
{
    lemma_drive_success(tc, default_time, Seq::empty(), 0);
}

proof fn lemma_drive_failure(
    tc: TestcaseData,
    default_time: u64,
    observed: Seq<PathValidationStatus>,
    i: int,
)
    requires
        tc.expected == ExpectedOutcome::Failure,
        !spec_unsupported_flag(tc),
        tc.target is Some,
        !(law_target(tc).subject_alt_name matches Some(san) && spec_has_unsupported_san(san@)),
        0 <= i <= law_paths(tc).len(),
        forall|k: int| i <= k < law_paths(tc).len() ==> #[trigger] law_enforce(tc, k),
        forall|k: int|
            i <= k < law_paths(tc).len() ==> #[trigger] law_outcome(tc, default_time, k) is Ok,
        forall|k: int|
            i <= k < law_paths(tc).len() ==> !(#[trigger] law_outcome(tc, default_time, k)
                == Result::<PathValidationStatus, ValidatorError>::Ok(PathValidationStatus::Valid)
                && law_peer_check_passes(tc)),
    ensures
        spec_drive(
            tc,
            law_target(tc),
            law_paths(tc),
            i,
            observed,
            spec_params(tc, default_time),
        ).0 matches TestcaseVerdict::Failure(_),
    decreases law_paths(tc).len() - i,
{
    let paths = law_paths(tc);
    let pr = spec_params(tc, default_time);
    if i >= paths.len() {
    } else {
        assert(law_enforce(tc, i));
        assert(law_outcome(tc, default_time, i) is Ok);
        let st = law_outcome(tc, default_time, i)->Ok_0;
        if st == PathValidationStatus::Valid {
            assert(!law_peer_check_passes(tc));
        } else {
            lemma_drive_failure(tc, default_time, observed.push(st), i + 1);
        }
    }
}

/// A vector that expects failure, raises no unsupported-feature flag, and
/// whose paths all enforce and evaluate cleanly, fails when no candidate
/// path both validates and passes the peer-name approximation.
pub proof fn lemma_failure_when_no_accepted_path(tc: TestcaseData, default_time: u64)
    requires
        !tc.has_signature_algorithm_constraints,
        tc.target is Some,
        tc.expected == ExpectedOutcome::Failure,
        !spec_unsupported_flag(tc),
        !(law_target(tc).subject_alt_name matches Some(san) && spec_has_unsupported_san(san@)),
        forall|k: int| 0 <= k < law_paths(tc).len() ==> #[trigger] law_enforce(tc, k),
        forall|k: int|
            0 <= k < law_paths(tc).len() ==> #[trigger] law_outcome(tc, default_time, k) is Ok,
        forall|k: int|
            0 <= k < law_paths(tc).len() ==> !(#[trigger] law_outcome(tc, default_time, k)
                == Result::<PathValidationStatus, ValidatorError>::Ok(PathValidationStatus::Valid)
                && law_peer_check_passes(tc)),
    ensures
        spec_evaluate(tc, default_time).0 matches TestcaseVerdict::Failure(_),
{
    lemma_drive_failure(tc, default_time, Seq::empty(), 0);
}

/// Evaluation is a function of the vector and the default time alone: any
/// two outcomes that `evaluate_testcase`'s contract admits for identical
/// inputs carry the same verdict and the same observed statuses.
pub proof fn lemma_evaluation_idempotent(
    tc: TestcaseData,
    default_time: u64,
    first: EvaluationOutcome,
    second: EvaluationOutcome,
)
    requires
        first.verdict == spec_evaluate(tc, default_time).0,
        first.observed@ == spec_evaluate(tc, default_time).1,
        second.verdict == spec_evaluate(tc, default_time).0,
        second.observed@ == spec_evaluate(tc, default_time).1,
    ensures
        first.verdict == second.verdict,
        first.observed@ == second.observed@,
{
}

/// An excluded subtree always wins: a leaf with a name inside some
/// excluded subtree of a constraint source is rejected by that source,
/// whatever its permitted subtrees admit.
pub proof fn lemma_excluded_overrides_permitted(nc: NameConstraintsData, t: CertData)
    requires
        nc.excluded matches Some(e) && spec_leaf_excluded_hit(e@, t),
    ensures
        !spec_nc_source_ok(nc, t),
{
}


/// The rejection statuses of the candidate paths from `i` on, in
/// enumeration order (meaningful under the premise that every path
/// evaluates cleanly to a non-valid status).
pub open spec fn law_statuses(tc: TestcaseData, default_time: u64, i: int) -> Seq<
    PathValidationStatus,
>
    decreases law_paths(tc).len() - i,
{
    if i < 0 || i >= law_paths(tc).len() {
        Seq::empty()
    } else {
        seq![law_outcome(tc, default_time, i)->Ok_0] + law_statuses(tc, default_time, i + 1)
    }
}

proof fn lemma_drive_records_all(
    tc: TestcaseData,
    default_time: u64,
    observed: Seq<PathValidationStatus>,
    i: int,
)
    requires
        !spec_unsupported_flag(tc),
        tc.target is Some,
        0 <= i <= law_paths(tc).len(),
        forall|k: int| i <= k < law_paths(tc).len() ==> #[trigger] law_enforce(tc, k),
        forall|k: int|
            i <= k < law_paths(tc).len() ==> #[trigger] law_outcome(tc, default_time, k) is Ok
                && law_outcome(tc, default_time, k) != Result::<
                PathValidationStatus,
                ValidatorError,
            >::Ok(PathValidationStatus::Valid),
    ensures
        spec_drive(
            tc,
            law_target(tc),
            law_paths(tc),
            i,
            observed,
            spec_params(tc, default_time),
        ) == (
            TestcaseVerdict::Failure(FailureReason::PathsExhausted),
            observed + law_statuses(tc, default_time, i),
        ),
    decreases law_paths(tc).len() - i,
{
    let paths = law_paths(tc);
    let pr = spec_params(tc, default_time);
    if i >= paths.len() {
        assert(observed + law_statuses(tc, default_time, i) =~= observed);
    } else {
        assert(law_enforce(tc, i));
        assert(law_outcome(tc, default_time, i) is Ok);
        let st = law_outcome(tc, default_time, i)->Ok_0;
        assert(st != PathValidationStatus::Valid);
        lemma_drive_records_all(tc, default_time, observed.push(st), i + 1);
        assert(observed.push(st) + law_statuses(tc, default_time, i + 1) =~= observed
            + law_statuses(tc, default_time, i));
    }
}

/// No rejection is dropped: when every candidate path enforces and
/// evaluates cleanly to a non-valid status, the vector fails with the
/// paths exhausted and the observed statuses are exactly the rejection
/// statuses of all candidate paths, in enumeration order.
pub proof fn lemma_no_rejection_dropped(tc: TestcaseData, default_time: u64)
    requires
        !tc.has_signature_algorithm_constraints,
        tc.target is Some,
        !spec_unsupported_flag(tc),
        forall|k: int| 0 <= k < law_paths(tc).len() ==> #[trigger] law_enforce(tc, k),
        forall|k: int|
            0 <= k < law_paths(tc).len() ==> #[trigger] law_outcome(tc, default_time, k) is Ok
                && law_outcome(tc, default_time, k) != Result::<
                PathValidationStatus,
                ValidatorError,
            >::Ok(PathValidationStatus::Valid),
    ensures
        spec_evaluate(tc, default_time).0 == TestcaseVerdict::Failure(
            FailureReason::PathsExhausted,
        ),
        spec_evaluate(tc, default_time).1 == law_statuses(tc, default_time, 0),
{
    lemma_drive_records_all(tc, default_time, Seq::empty(), 0);
    assert(Seq::<PathValidationStatus>::empty() + law_statuses(tc, default_time, 0)
        =~= law_statuses(tc, default_time, 0));
}

} // verus!
