//! The trust-anchor constraint enforcer: derives, for one trust anchor,
//! the effective settings under which paths from that anchor are
//! validated, narrowing the caller's settings by constraints the anchor
//! certificate embeds.
use vstd::prelude::*;
use crate::model::{
    CertData, CertificationPathSettings, EffectiveSettings, EnforcementError,
};

verus! {

/// The caller's initial path-length budget; absent means unbounded, which
/// no chain of machine-representable length can exhaust.
pub open spec fn spec_base_max_path(s: CertificationPathSettings) -> u64 {
    match s.initial_path_length_constraint {
        Option::Some(d) => d,
        Option::None => u64::MAX,
    }
}

/// Effective settings for one trust anchor. Enforcement fails exactly when
/// it is asked to apply a constraint set that is self-contradictory: a
/// permitted-subtree list that is present but empty admits no name at all.
/// When enforcement is disabled the anchor's embedded constraints are
/// ignored.
pub open spec fn spec_enforce_parts(
    enforce: bool,
    initial: Option<u64>,
    ta: CertData,
) -> Result<EffectiveSettings, EnforcementError> {
    let base: u64 = match initial {
        Option::Some(d) => d,
        Option::None => u64::MAX,
    };
    if !enforce {
        Result::Ok(
            EffectiveSettings {
                initial_max_path: base,
                apply_trust_anchor_name_constraints: false,
            },
        )
    } else if ta.name_constraints matches Some(nc) && nc.permitted matches Some(p) && p@.len()
        == 0 {
        Result::Err(EnforcementError::ContradictoryTrustAnchorConstraints)
    } else {
        Result::Ok(
            EffectiveSettings {
                initial_max_path: if ta.basic_constraints matches Some(b) && b.path_len matches
                    Some(pl) && pl < base {
                    ta.basic_constraints->Some_0.path_len->Some_0
                } else {
                    base
                },
                apply_trust_anchor_name_constraints: ta.name_constraints is Some,
            },
        )
    }
}

pub open spec fn spec_enforce(s: CertificationPathSettings, ta: CertData) -> Result<
    EffectiveSettings,
    EnforcementError,
> {
    spec_enforce_parts(s.enforce_trust_anchor_constraints, s.initial_path_length_constraint, ta)
}

/// Derives effective settings for paths that end at `ta` (the narrowing of
/// the caller's settings by the anchor's own constraints).
pub fn enforce_trust_anchor_constraints(s: &CertificationPathSettings, ta: &CertData) -> (r:
    Result<EffectiveSettings, EnforcementError>)
    ensures
        r == spec_enforce(*s, *ta),
{
    let base: u64 = match s.initial_path_length_constraint {
        Some(d) => d,
        None => u64::MAX,
    };
    if !s.enforce_trust_anchor_constraints {
        return Ok(
            EffectiveSettings { initial_max_path: base, apply_trust_anchor_name_constraints: false },
        );
    }
    let mut contradictory = false;
    if let Some(nc) = &ta.name_constraints {
        if let Some(p) = &nc.permitted {
            if p.len() == 0 {
                contradictory = true;
            }
        }
    }
    if contradictory {
        return Err(EnforcementError::ContradictoryTrustAnchorConstraints);
    }
    let mut max_path: u64 = base;
    if let Some(b) = &ta.basic_constraints {
        if let Some(pl) = b.path_len {
            if pl < base {
                max_path = pl;
            }
        }
    }
    Ok(
        EffectiveSettings {
            initial_max_path: max_path,
            apply_trust_anchor_name_constraints: ta.name_constraints.is_some(),
        },
    )
}

} // verus!
