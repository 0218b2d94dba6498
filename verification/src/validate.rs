//! The path validator: the certification-path validation algorithm over
//! one candidate path under one effective settings object. Checks run
//! front to back, from the certificate below the trust anchor toward the
//! target, and the first violation decides the status. A path carrying a
//! policy-processing extension cannot be judged at all and yields a
//! validator error, never a rejection.
use vstd::prelude::*;
use crate::bytes::bytes_eq;
use crate::crypto::{sig_verifies, verify_signature};
use crate::graph::{CandidatePath, PathImage};
use crate::model::{
    CertData, CertificationPathSettings, EffectiveSettings, KnownEku, PathValidationStatus,
    ValidatorError, KU_KEY_CERT_SIGN,
};
use crate::names::{deep, nc_source_ok, spec_nc_source_ok};

verus! {

/// The validator-relevant image of a settings object.
pub ghost struct ValidationParams {
    pub toi: u64,
    pub target_ku: Option<u16>,
    pub req_ekus: Option<Seq<Seq<u8>>>,
    pub eku_path: bool,
}

pub open spec fn params_of(s: CertificationPathSettings) -> ValidationParams {
    ValidationParams {
        toi: s.time_of_interest,
        target_ku: s.target_key_usage,
        req_ekus: match s.extended_key_usage {
            Option::None => Option::None,
            Option::Some(l) => Option::Some(deep(l@)),
        },
        eku_path: s.extended_key_usage_path,
    }
}

/// The object identifier of the any-extended-key-usage purpose.
pub open spec fn spec_any_eku_oid() -> Seq<u8> {
    seq![0x55u8, 0x1du8, 0x25u8, 0x00u8]
}

/// The object identifier bytes of one known extended-key-usage purpose.
pub open spec fn spec_eku_oid(e: KnownEku) -> Seq<u8> {
    match e {
        KnownEku::ServerAuth => seq![0x2bu8, 0x06u8, 0x01u8, 0x05u8, 0x05u8, 0x07u8, 0x03u8, 0x01u8],
        KnownEku::ClientAuth => seq![0x2bu8, 0x06u8, 0x01u8, 0x05u8, 0x05u8, 0x07u8, 0x03u8, 0x02u8],
        KnownEku::CodeSigning => seq![0x2bu8, 0x06u8, 0x01u8, 0x05u8, 0x05u8, 0x07u8, 0x03u8, 0x03u8],
        KnownEku::EmailProtection => seq![
            0x2bu8,
            0x06u8,
            0x01u8,
            0x05u8,
            0x05u8,
            0x07u8,
            0x03u8,
            0x04u8,
        ],
        KnownEku::TimeStamping => seq![0x2bu8, 0x06u8, 0x01u8, 0x05u8, 0x05u8, 0x07u8, 0x03u8, 0x08u8],
        KnownEku::OcspSigning => seq![0x2bu8, 0x06u8, 0x01u8, 0x05u8, 0x05u8, 0x07u8, 0x03u8, 0x09u8],
        KnownEku::AnyExtendedKeyUsage => spec_any_eku_oid(),
    }
}

/// The object identifier bytes of one known extended-key-usage purpose.
pub fn eku_oid(e: KnownEku) -> (r: Vec<u8>)
    ensures
        r@ == spec_eku_oid(e),
{
    let mut v: Vec<u8> = Vec::new();
    match e {
        KnownEku::AnyExtendedKeyUsage => {
            v.push(0x55u8);
            v.push(0x1du8);
            v.push(0x25u8);
            v.push(0x00u8);
            assert(v@ =~= spec_any_eku_oid());
        },
        _ => {
            v.push(0x2bu8);
            v.push(0x06u8);
            v.push(0x01u8);
            v.push(0x05u8);
            v.push(0x05u8);
            v.push(0x07u8);
            v.push(0x03u8);
            match e {
                KnownEku::ServerAuth => v.push(0x01u8),
                KnownEku::ClientAuth => v.push(0x02u8),
                KnownEku::CodeSigning => v.push(0x03u8),
                KnownEku::EmailProtection => v.push(0x04u8),
                KnownEku::TimeStamping => v.push(0x08u8),
                KnownEku::OcspSigning => v.push(0x09u8),
                KnownEku::AnyExtendedKeyUsage => v.push(0x00u8),
            }
            assert(v@ =~= spec_eku_oid(e));
        },
    }
    v
}

/// The certificate list of one candidate path, from the trust anchor down
/// to the target.
pub open spec fn spec_chain(
    anchors: Seq<CertData>,
    certs: Seq<CertData>,
    target: CertData,
    p: PathImage,
) -> Seq<CertData> {
    Seq::new(
        p.inters.len() + 2,
        |i: int|
            if i == 0 {
                anchors[p.anchor as int]
            } else if i <= p.inters.len() {
                certs[p.inters[p.inters.len() - i] as int]
            } else {
                target
            },
    )
}

/// All of a candidate path's indices lie inside the stores.
pub open spec fn spec_path_in_range(
    anchors: Seq<CertData>,
    certs: Seq<CertData>,
    p: PathImage,
) -> bool {
    (p.anchor as int) < anchors.len() && forall|q: int|
        0 <= q < p.inters.len() ==> (#[trigger] p.inters[q] as int) < certs.len()
}

/// The validity window of `c` contains the time of interest.
pub open spec fn spec_time_ok(c: CertData, toi: u64) -> bool {
    c.not_before <= toi <= c.not_after
}

/// An intermediate that asserts a key-usage extension must assert the
/// certificate-signing bit.
pub open spec fn spec_ku_cert_sign_ok(c: CertData) -> bool {
    c.key_usage matches Some(ku) ==> ku & KU_KEY_CERT_SIGN != 0
}

/// A target that asserts a key-usage extension must assert every
/// requested bit.
pub open spec fn spec_target_ku_ok(c: CertData, req: Option<u16>) -> bool {
    req matches Some(bits) ==> (c.key_usage matches Some(ku) ==> ku & bits == bits)
}

/// An asserted extended-key-usage list satisfies the requested purposes
/// when it carries the any-purpose identifier or every requested one.
pub open spec fn spec_eku_list_ok(cert_list: Seq<Seq<u8>>, req: Seq<Seq<u8>>) -> bool {
    cert_list.contains(spec_any_eku_oid()) || forall|j: int|
        0 <= j < req.len() ==> cert_list.contains(#[trigger] req[j])
}

/// A certificate that asserts an extended-key-usage extension must cover
/// the requested purposes; one without the extension is unconstrained.
pub open spec fn spec_eku_ok(c: CertData, req: Option<Seq<Seq<u8>>>) -> bool {
    req matches Some(rl) ==> (c.extended_key_usage matches Some(cl) ==> spec_eku_list_ok(
        deep(cl@),
        rl,
    ))
}

pub(crate) fn seqs_contain(list: &Vec<Vec<u8>>, x: &Vec<u8>) -> (r: bool)
    ensures
        r == deep(list@).contains(x@),
{
    let mut j: usize = 0;
    while j < list.len()
        invariant
            j <= list@.len(),
            forall|k: int| 0 <= k < j ==> #[trigger] deep(list@)[k] != x@,
        decreases list.len() - j,
    {
        if bytes_eq(&list[j], x) {
            assert(deep(list@)[j as int] == x@);
            return true;
        }
        assert(deep(list@)[j as int] == list@[j as int]@);
        j += 1;
    }
    false
}

#[verifier::loop_isolation(false)]
fn eku_list_ok(cert_list: &Vec<Vec<u8>>, req: &Vec<Vec<u8>>) -> (r: bool)
    ensures
        r == spec_eku_list_ok(deep(cert_list@), deep(req@)),
{
    let mut any: Vec<u8> = Vec::new();
    any.push(0x55u8);
    any.push(0x1du8);
    any.push(0x25u8);
    any.push(0x00u8);
    assert(any@ =~= spec_any_eku_oid());
    if seqs_contain(cert_list, &any) {
        return true;
    }
    let mut j: usize = 0;
    while j < req.len()
        invariant
            j <= req@.len(),
            forall|k: int| 0 <= k < j ==> deep(cert_list@).contains(#[trigger] deep(req@)[k]),
        decreases req.len() - j,
    {
        if !seqs_contain(cert_list, &req[j]) {
            proof {
                assert(deep(req@)[j as int] == req@[j as int]@);
                assert(!deep(cert_list@).contains(spec_any_eku_oid()));
                assert(!deep(cert_list@).contains(deep(req@)[j as int]));
                assert(!spec_eku_list_ok(deep(cert_list@), deep(req@)));
            }
            return false;
        }
        assert(deep(req@)[j as int] == req@[j as int]@);
        j += 1;
    }
    true
}

/// The first violated check of one certificate of the path, or `None`
/// when all hold. `max_path` is the remaining path-length budget when the
/// certificate is reached.
pub open spec fn spec_cert_checks(
    parent: CertData,
    c: CertData,
    is_leaf: bool,
    max_path: u64,
    pr: ValidationParams,
) -> Option<PathValidationStatus> {
    if !spec_time_ok(c, pr.toi) {
        Option::Some(PathValidationStatus::InvalidValidity)
    } else if !sig_verifies(parent.spki@, c.tbs@, c.signature@) {
        Option::Some(PathValidationStatus::InvalidSignature)
    } else if c.issuer@ != parent.subject@ {
        Option::Some(PathValidationStatus::InvalidNameChaining)
    } else if !is_leaf && !(c.basic_constraints matches Some(b) && b.ca) {
        Option::Some(PathValidationStatus::InvalidBasicConstraints)
    } else if !is_leaf && !crate::model::spec_self_issued(c) && max_path == 0 {
        Option::Some(PathValidationStatus::InvalidPathLength)
    } else if !is_leaf && !spec_ku_cert_sign_ok(c) {
        Option::Some(PathValidationStatus::InvalidKeyUsage)
    } else if is_leaf && !spec_target_ku_ok(c, pr.target_ku) {
        Option::Some(PathValidationStatus::InvalidKeyUsage)
    } else if (is_leaf || pr.eku_path) && !spec_eku_ok(c, pr.req_ekus) {
        Option::Some(PathValidationStatus::InvalidExtendedKeyUsage)
    } else {
        Option::None
    }
}

/// The path-length budget after processing one certificate: non-leaf,
/// non-self-issued certificates consume one unit, and an embedded
/// path-length constraint can narrow what remains.
pub open spec fn spec_next_max(c: CertData, is_leaf: bool, max_path: u64) -> u64 {
    if is_leaf {
        max_path
    } else {
        let after: u64 = if crate::model::spec_self_issued(c) {
            max_path
        } else if max_path == 0 {
            0
        } else {
            (max_path - 1) as u64
        };
        if c.basic_constraints matches Some(b) && b.path_len matches Some(pl) && pl < after {
            c.basic_constraints->Some_0.path_len->Some_0
        } else {
            after
        }
    }
}

/// Walks the chain from position `pos` with budget `max_path` and returns
/// the first violation, or `None` when every remaining check holds.
pub open spec fn spec_walk(
    chain: Seq<CertData>,
    pos: int,
    max_path: u64,
    pr: ValidationParams,
) -> Option<PathValidationStatus>
    decreases chain.len() - pos,
{
    if pos < 1 || pos >= chain.len() {
        Option::None
    } else {
        let c = chain[pos];
        let is_leaf = pos == chain.len() - 1;
        match spec_cert_checks(chain[pos - 1], c, is_leaf, max_path, pr) {
            Option::Some(st) => Option::Some(st),
            Option::None => spec_walk(chain, pos + 1, spec_next_max(c, is_leaf, max_path), pr),
        }
    }
}

/// Every name-constraints source along the path accepts the target: the
/// anchor's own extension when trust-anchor constraints apply, and each
/// intermediate's.
pub open spec fn spec_path_nc_ok(
    anchors: Seq<CertData>,
    certs: Seq<CertData>,
    target: CertData,
    p: PathImage,
    apply_ta: bool,
) -> bool {
    (apply_ta ==> (anchors[p.anchor as int].name_constraints matches Some(nc)
        ==> spec_nc_source_ok(nc, target))) && forall|q: int|
        0 <= q < p.inters.len() ==> (certs[#[trigger] p.inters[q] as int].name_constraints matches
            Some(nc) ==> spec_nc_source_ok(nc, target))
}

/// Some certificate below the anchor carries a policy-processing
/// extension, which this validator cannot evaluate.
pub open spec fn spec_path_has_policy_ext(
    certs: Seq<CertData>,
    target: CertData,
    p: PathImage,
) -> bool {
    target.has_policy_processing_extension || exists|q: int|
        0 <= q < p.inters.len() && certs[#[trigger] p.inters[q] as int].has_policy_processing_extension
}

/// The status of one candidate path under one effective settings object.
pub open spec fn spec_validate(
    anchors: Seq<CertData>,
    certs: Seq<CertData>,
    target: CertData,
    p: PathImage,
    eff: EffectiveSettings,
    pr: ValidationParams,
) -> Result<PathValidationStatus, ValidatorError> {
    if spec_path_has_policy_ext(certs, target, p) {
        Result::Err(ValidatorError::PolicyProcessingUnsupported)
    } else {
        match spec_walk(spec_chain(anchors, certs, target, p), 1, eff.initial_max_path, pr) {
            Option::Some(st) => Result::Ok(st),
            Option::None => if !spec_path_nc_ok(
                anchors,
                certs,
                target,
                p,
                eff.apply_trust_anchor_name_constraints,
            ) {
                Result::Ok(PathValidationStatus::InvalidNameConstraints)
            } else {
                Result::Ok(PathValidationStatus::Valid)
            },
        }
    }
}

fn cert_checks(
    parent: &CertData,
    c: &CertData,
    is_leaf: bool,
    max_path: u64,
    s: &CertificationPathSettings,
) -> (r: Option<PathValidationStatus>)
    ensures
        r == spec_cert_checks(*parent, *c, is_leaf, max_path, params_of(*s)),
{
    if !(c.not_before <= s.time_of_interest && s.time_of_interest <= c.not_after) {
        return Some(PathValidationStatus::InvalidValidity);
    }
    if !verify_signature(&parent.spki, &c.tbs, &c.signature) {
        return Some(PathValidationStatus::InvalidSignature);
    }
    if !bytes_eq(&c.issuer, &parent.subject) {
        return Some(PathValidationStatus::InvalidNameChaining);
    }
    if !is_leaf {
        let ca_ok = match &c.basic_constraints {
            Some(b) => b.ca,
            None => false,
        };
        if !ca_ok {
            return Some(PathValidationStatus::InvalidBasicConstraints);
        }
        if !bytes_eq(&c.subject, &c.issuer) && max_path == 0 {
            return Some(PathValidationStatus::InvalidPathLength);
        }
        let ku_ok = match c.key_usage {
            Some(ku) => ku & KU_KEY_CERT_SIGN != 0,
            None => true,
        };
        if !ku_ok {
            return Some(PathValidationStatus::InvalidKeyUsage);
        }
    } else {
        let ku_ok = match s.target_key_usage {
            Some(bits) => match c.key_usage {
                Some(ku) => ku & bits == bits,
                None => true,
            },
            None => true,
        };
        if !ku_ok {
            return Some(PathValidationStatus::InvalidKeyUsage);
        }
    }
    if is_leaf || s.extended_key_usage_path {
        let eku_fine = match &s.extended_key_usage {
            Some(rl) => match &c.extended_key_usage {
                Some(cl) => eku_list_ok(cl, rl),
                None => true,
            },
            None => true,
        };
        if !eku_fine {
            return Some(PathValidationStatus::InvalidExtendedKeyUsage);
        }
    }
    None
}

fn next_max(c: &CertData, is_leaf: bool, max_path: u64) -> (r: u64)
    ensures
        r == spec_next_max(*c, is_leaf, max_path),
{
    if is_leaf {
        return max_path;
    }
    let after: u64 = if bytes_eq(&c.subject, &c.issuer) {
        max_path
    } else if max_path == 0 {
        0
    } else {
        max_path - 1
    };
    match &c.basic_constraints {
        Some(b) => match b.path_len {
            Some(pl) => if pl < after {
                pl
            } else {
                after
            },
            None => after,
        },
        None => after,
    }
}

/// Validates one candidate path under the given settings, returning its
/// status, or a validator error when the path cannot be judged.
#[verifier::loop_isolation(false)]
pub fn validate_path(
    s: &CertificationPathSettings,
    eff: &EffectiveSettings,
    anchors: &Vec<CertData>,
    certs: &Vec<CertData>,
    target: &CertData,
    path: &CandidatePath,
) -> (r: Result<PathValidationStatus, ValidatorError>)
    requires
        spec_path_in_range(anchors@, certs@, path@),
    ensures
        r == spec_validate(anchors@, certs@, *target, path@, *eff, params_of(*s)),
{
    let ghost chain = spec_chain(anchors@, certs@, *target, path@);
    let n_mid = path.intermediates.len();

    // Policy-processing extensions anywhere below the anchor make the
    // path unjudgeable.
    if target.has_policy_processing_extension {
        return Err(ValidatorError::PolicyProcessingUnsupported);
    }
    let mut q: usize = 0;
    while q < n_mid
        invariant
            q <= n_mid,
            n_mid == path.intermediates@.len(),
            spec_path_in_range(anchors@, certs@, path@),
            forall|k: int|
                0 <= k < q ==> !certs@[#[trigger] path.intermediates@[k] as int].has_policy_processing_extension,
        decreases n_mid - q,
    {
        if certs[path.intermediates[q]].has_policy_processing_extension {
            return Err(ValidatorError::PolicyProcessingUnsupported);
        }
        q += 1;
    }
    assert(!spec_path_has_policy_ext(certs@, *target, path@));

    // Walk the chain from just below the anchor toward the target.
    let mut max_path: u64 = eff.initial_max_path;
    let mut i: usize = 0;
    while i < n_mid
        invariant
            i <= n_mid,
            n_mid == path.intermediates@.len(),
            spec_path_in_range(anchors@, certs@, path@),
            chain == spec_chain(anchors@, certs@, *target, path@),
            spec_walk(chain, 1, eff.initial_max_path, params_of(*s)) == spec_walk(
                chain,
                i + 1 as int,
                max_path,
                params_of(*s),
            ),
        decreases n_mid - i,
    {
        let cur = &certs[path.intermediates[n_mid - 1 - i]];
        let parent = if i == 0 {
            &anchors[path.anchor]
        } else {
            &certs[path.intermediates[n_mid - i]]
        };
        proof {
            assert(chain[i + 1 as int] == *cur);
            assert(chain[i as int] == *parent);
            assert(i + 1 < chain.len() - 1);
        }
        let step = cert_checks(parent, cur, false, max_path, s);
        proof {
            assert(chain.len() == n_mid + 2);
            assert(spec_walk(chain, i + 1 as int, max_path, params_of(*s)) == (
            match spec_cert_checks(chain[i as int], chain[i + 1 as int], false, max_path,
                params_of(*s)) {
                Option::Some(st) => Option::Some(st),
                Option::None => spec_walk(chain, i + 2 as int, spec_next_max(chain[i + 1 as int],
                    false, max_path), params_of(*s)),
            }));
        }
        match step {
            Some(st) => {
                proof {
                    assert(spec_walk(chain, 1, eff.initial_max_path, params_of(*s)) == Option::Some(st));
                }
                return Ok(st);
            },
            None => {},
        }
        max_path = next_max(cur, false, max_path);
        i += 1;
    }
    // The target itself.
    let parent = if n_mid == 0 {
        &anchors[path.anchor]
    } else {
        &certs[path.intermediates[0]]
    };
    proof {
        assert(chain[n_mid + 1 as int] == *target);
        assert(chain[n_mid as int] == *parent);
        assert(n_mid + 1 as int == chain.len() - 1);
    }
    let last_step = cert_checks(parent, target, true, max_path, s);
    proof {
        assert(chain.len() == n_mid + 2);
        assert(spec_walk(chain, n_mid + 1 as int, max_path, params_of(*s)) == (
        match spec_cert_checks(chain[n_mid as int], chain[n_mid + 1 as int], true, max_path,
            params_of(*s)) {
            Option::Some(st) => Option::Some(st),
            Option::None => spec_walk(chain, n_mid + 2 as int, spec_next_max(chain[n_mid + 1 as int],
                true, max_path), params_of(*s)),
        }));
    }
    match last_step {
        Some(st) => {
            proof {
                assert(spec_walk(chain, 1, eff.initial_max_path, params_of(*s)) == Option::Some(st));
            }
            return Ok(st);
        },
        None => {},
    }
    proof {
        assert(spec_walk(chain, n_mid + 2 as int, spec_next_max(*target, true, max_path),
            params_of(*s)) is None);
        assert(spec_walk(chain, 1, eff.initial_max_path, params_of(*s)) is None);
    }

    // Name constraints: every source along the path must accept the leaf.
    if eff.apply_trust_anchor_name_constraints {
        let ta_ok = match &anchors[path.anchor].name_constraints {
            Some(nc) => nc_source_ok(nc, target),
            None => true,
        };
        if !ta_ok {
            return Ok(PathValidationStatus::InvalidNameConstraints);
        }
    }
    let mut w: usize = 0;
    while w < n_mid
        invariant
            w <= n_mid,
            n_mid == path.intermediates@.len(),
            spec_path_in_range(anchors@, certs@, path@),
            forall|k: int|
                0 <= k < w ==> (certs@[#[trigger] path.intermediates@[k] as int].name_constraints matches
                    Some(nc) ==> spec_nc_source_ok(nc, *target)),
        decreases n_mid - w,
    {
        let mid_ok = match &certs[path.intermediates[w]].name_constraints {
            Some(nc) => nc_source_ok(nc, target),
            None => true,
        };
        if !mid_ok {
            proof {
                assert(certs@[path.intermediates@[w as int] as int].name_constraints matches
                    Some(nc) && !spec_nc_source_ok(nc, *target));
                assert(!spec_path_nc_ok(anchors@, certs@, *target, path@,
                    eff.apply_trust_anchor_name_constraints));
            }
            return Ok(PathValidationStatus::InvalidNameConstraints);
        }
        w += 1;
    }
    assert(spec_path_nc_ok(
        anchors@,
        certs@,
        *target,
        path@,
        eff.apply_trust_anchor_name_constraints,
    ));
    Ok(PathValidationStatus::Valid)
}

} // verus!
