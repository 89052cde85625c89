use image_stacker::selection::{
    select_estimator, select_matcher, target_feature_count, EstimatorKind, MatcherMethod,
};
use image_stacker::text::decimal_string;

#[test]
fn auto_selects_brute_force_for_small_reference() {
    let sel = select_matcher(None, 200);
    assert!(!sel.use_flann);
    assert_eq!(sel.label, "BF (auto-selected)");
}

#[test]
fn auto_selects_indexed_for_large_reference() {
    let sel = select_matcher(None, 1500);
    assert!(sel.use_flann);
    assert_eq!(sel.label, "FLANN (auto-selected)");
}

#[test]
fn auto_boundary_is_one_thousand() {
    assert!(!select_matcher(None, 1000).use_flann);
    assert!(select_matcher(None, 1001).use_flann);
    assert!(!select_matcher(Some(MatcherMethod::Auto), 1000).use_flann);
    assert!(select_matcher(Some(MatcherMethod::Auto), 1001).use_flann);
}

#[test]
fn explicit_method_always_wins() {
    let bf = select_matcher(Some(MatcherMethod::BF), 50_000);
    assert!(!bf.use_flann);
    assert_eq!(bf.label, "BF");
    let flann = select_matcher(Some(MatcherMethod::FLANN), 3);
    assert!(flann.use_flann);
    assert_eq!(flann.label, "FLANN");
}

#[test]
fn rotation_flag_selects_estimator() {
    assert_eq!(select_estimator(true), EstimatorKind::ConsensusSampling);
    assert_eq!(select_estimator(false), EstimatorKind::LeastMedianSquares);
}

#[test]
fn target_features_scale_from_five_hundred() {
    assert_eq!(target_feature_count(1000), 500);
    assert_eq!(target_feature_count(2000), 1000);
    assert_eq!(target_feature_count(1500), 750);
    assert_eq!(target_feature_count(0), 0);
    assert_eq!(target_feature_count(1), 1);
    assert_eq!(target_feature_count(3), 2);
    assert_eq!(target_feature_count(u32::MAX), 2_147_483_648);
}

#[test]
fn decimal_rendering_is_exact() {
    assert_eq!(decimal_string(0), "0");
    assert_eq!(decimal_string(7), "7");
    assert_eq!(decimal_string(10), "10");
    assert_eq!(decimal_string(1234), "1234");
    assert_eq!(decimal_string(u64::MAX), "18446744073709551615");
}
