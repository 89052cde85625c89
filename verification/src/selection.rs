//! Strategy selection: which descriptor matcher to use, which robust
//! estimator to use, and how many features to ask the detector for.

use vstd::arithmetic::div_mod::lemma_div_is_ordered;
use vstd::prelude::*;
use vstd::string::StringExecFns;

verus! {

/// How descriptors are matched: exact brute force (`BF`), an approximate
/// indexed search (`FLANN`), or an automatic choice driven by the size of the
/// reference descriptor set.
#[derive(Clone, Copy, Debug, PartialEq, Eq, Structural)]
pub enum MatcherMethod {
    Auto,
    BF,
    FLANN,
}

/// The robust estimator for the partial-affine fit: consensus sampling when
/// rotation between frames is allowed, least-median-of-squares otherwise.
#[derive(Clone, Copy, Debug, PartialEq, Eq, Structural)]
pub enum EstimatorKind {
    ConsensusSampling,
    LeastMedianSquares,
}

/// The method an optional override resolves to: an absent override means
/// `Auto`.
pub open spec fn effective_method(method: Option<MatcherMethod>) -> MatcherMethod {
    match method {
        Option::Some(m) => m,
        Option::None => MatcherMethod::Auto,
    }
}

/// Whether the resolved method uses the approximate indexed backend. An
/// explicit choice always wins; `Auto` takes the indexed backend only when
/// the reference image has more than 1000 keypoints, where the index
/// amortizes its build cost.
pub open spec fn uses_flann(method: Option<MatcherMethod>, ref_keypoint_count: nat) -> bool {
    match effective_method(method) {
        MatcherMethod::BF => false,
        MatcherMethod::FLANN => true,
        MatcherMethod::Auto => ref_keypoint_count > 1000,
    }
}

/// The human-readable label reported for the selection.
pub open spec fn method_label(method: Option<MatcherMethod>, ref_keypoint_count: nat) -> Seq<
    char,
> {
    match effective_method(method) {
        MatcherMethod::BF => "BF"@,
        MatcherMethod::FLANN => "FLANN"@,
        MatcherMethod::Auto => if ref_keypoint_count > 1000 {
            "FLANN (auto-selected)"@
        } else {
            "BF (auto-selected)"@
        },
    }
}

/// A resolved matching strategy together with its reported label.
#[derive(Debug)]
pub struct MatcherSelection {
    pub use_flann: bool,
    pub label: String,
}

/// Resolves the configured method against the reference keypoint count.
/// The outcome depends on those two values alone, so one selection serves
/// the whole run.
pub fn select_matcher(method: Option<MatcherMethod>, ref_keypoint_count: usize) -> (sel:
    MatcherSelection)
    ensures
        sel.use_flann == uses_flann(method, ref_keypoint_count as nat),
        sel.label@ == method_label(method, ref_keypoint_count as nat),
{
    match method {
        Option::Some(MatcherMethod::BF) => MatcherSelection {
            use_flann: false,
            label: String::from_str("BF"),
        },
        Option::Some(MatcherMethod::FLANN) => MatcherSelection {
            use_flann: true,
            label: String::from_str("FLANN"),
        },
        _ => {
            if ref_keypoint_count > 1000 {
                MatcherSelection { use_flann: true, label: String::from_str("FLANN (auto-selected)") }
            } else {
                MatcherSelection { use_flann: false, label: String::from_str("BF (auto-selected)") }
            }
        },
    }
}

/// Under `Auto` the choice is a function of the reference keypoint count
/// alone: at most 1000 keypoints select the exact brute-force matcher, more
/// select the approximate indexed one.
pub proof fn lemma_auto_selection_deterministic(ref_keypoint_count: nat)
    ensures
        uses_flann(Option::None, ref_keypoint_count) == (ref_keypoint_count > 1000),
        uses_flann(Option::Some(MatcherMethod::Auto), ref_keypoint_count) == (ref_keypoint_count
            > 1000),
{
}

/// The estimator that a rotation-allowance flag selects.
pub open spec fn estimator_for(allow_rotation: bool) -> EstimatorKind {
    if allow_rotation {
        EstimatorKind::ConsensusSampling
    } else {
        EstimatorKind::LeastMedianSquares
    }
}

/// Chooses the robust fitting strategy: consensus sampling tolerates
/// rotation; least-median-of-squares assumes rotation-free geometry.
pub fn select_estimator(allow_rotation: bool) -> (kind: EstimatorKind)
    ensures
        kind == estimator_for(allow_rotation),
{
    if allow_rotation {
        EstimatorKind::ConsensusSampling
    } else {
        EstimatorKind::LeastMedianSquares
    }
}

/// The detector's target keypoint count for a sensitivity given in
/// thousandths: 500 times the sensitivity, rounded half up, which is
/// `(500 * t + 500) / 1000` in integer arithmetic.
pub open spec fn target_features(sensitivity_thousandths: nat) -> nat {
    (500 * sensitivity_thousandths + 500) / 1000
}

/// Scales the fixed base of 500 features by the sensitivity factor.
pub fn target_feature_count(sensitivity_thousandths: u32) -> (n: u32)
    ensures
        n as nat == target_features(sensitivity_thousandths as nat),
{
    let wide: u64 = (500u64 * (sensitivity_thousandths as u64) + 500) / 1000;
    proof {
        lemma_div_is_ordered(
            500 * (sensitivity_thousandths as int) + 500,
            500 * (u32::MAX as int) + 500,
            1000,
        );
    }
    wide as u32
}

} // verus!
