//! The safety gate: the single place where a feature identifier becomes
//! eligible for use.

use vstd::prelude::*;
use crate::hidpp::allowed_features::spec_is_allowed;
use crate::hidpp::blocklisted_features::{
    blocklist_reason,
    is_blocklisted,
    spec_blocklist_reason,
    spec_is_blocklisted,
};
use crate::hidpp::error::HapticError;

verus! {

/// The verdict on a feature, as a function of its identifier.
pub open spec fn spec_verify_feature_safety(feature_id: u16) -> Result<(), HapticError> {
    if spec_is_blocklisted(feature_id) {
        Err(
            HapticError::SafetyViolation {
                feature_id,
                reason: spec_blocklist_reason(feature_id).unwrap(),
            },
        )
    } else {
        Ok(())
    }
}

/// Checks that a feature may be used at runtime.
///
/// A feature of the forbidden set is refused with a safety violation that
/// carries the identifier and the reason; every other feature passes, whether
/// it is explicitly allowed or unclassified.
pub fn verify_feature_safety(feature_id: u16) -> (verdict: Result<(), HapticError>)
    ensures
        verdict == spec_verify_feature_safety(feature_id),
        verdict is Err <==> spec_is_blocklisted(feature_id),
{
    if is_blocklisted(feature_id) {
        let reason: &'static str = match blocklist_reason(feature_id) {
            Some(text) => text,
            None => "Unknown persistent feature",
        };
        return Err(HapticError::SafetyViolation { feature_id, reason });
    }
    Ok(())
}

/// No feature is both forbidden and allowed: the two sets of the catalog are
/// disjoint.
pub proof fn lemma_catalog_sets_disjoint(feature_id: u16)
    ensures
        !(spec_is_blocklisted(feature_id) && spec_is_allowed(feature_id)),
{
}

/// Every forbidden feature is refused with a violation that carries its own
/// identifier, and every allowed feature passes: the verdict is an
/// error exactly on the forbidden set.
pub proof fn lemma_verdict_follows_catalog(feature_id: u16)
    ensures
        spec_is_blocklisted(feature_id) ==> spec_verify_feature_safety(feature_id) is Err,
        spec_is_blocklisted(feature_id) ==> spec_verify_feature_safety(feature_id)->Err_0
            is SafetyViolation,
        spec_is_blocklisted(feature_id) ==> spec_verify_feature_safety(
            feature_id,
        )->Err_0->feature_id == feature_id,
        spec_is_allowed(feature_id) ==> spec_verify_feature_safety(feature_id) is Ok,
{
}

} // verus!
