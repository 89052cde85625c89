use image_stacker::matching::FeatureMatch;
use image_stacker::pipeline::{
    decide_candidate, plan_alignment, plan_to_result, AlignmentParams, CandidateProbe, Decision,
    PlanEntry,
};
use image_stacker::selection::{select_matcher, MatcherMethod};

fn m(query_idx: usize, train_idx: usize, distance: u32) -> FeatureMatch {
    FeatureMatch { query_idx, train_idx, distance }
}

/// Three unambiguous correspondences, index-valid up to 3 keypoints each side.
fn three_good_rows() -> Vec<Vec<FeatureMatch>> {
    vec![
        vec![m(0, 0, 1), m(0, 1, 10)],
        vec![m(1, 1, 1), m(1, 2, 10)],
        vec![m(2, 2, 1), m(2, 0, 10)],
    ]
}

fn params(reference: &str, candidates: &[&str], min_matches: usize) -> AlignmentParams {
    AlignmentParams {
        reference_image_path: reference.to_string(),
        image_paths: candidates.iter().map(|p| p.to_string()).collect(),
        feature_sensitivity: 1000,
        min_matches,
        allow_rotation: true,
        matcher_method: None,
    }
}

#[test]
fn load_failure_is_skipped_with_diagnostic() {
    let path = "bad.png".to_string();
    let (decision, diags) = decide_candidate(&path, 0, 100, &CandidateProbe::LoadFailed);
    assert!(matches!(decision, Decision::Skipped));
    assert_eq!(diags, vec!["Failed to load image: bad.png".to_string()]);
}

#[test]
fn empty_image_is_skipped_with_diagnostic() {
    let path = "blank.png".to_string();
    let (decision, diags) = decide_candidate(&path, 0, 100, &CandidateProbe::EmptyImage);
    assert!(matches!(decision, Decision::Skipped));
    assert_eq!(diags, vec!["Image is empty: blank.png".to_string()]);
}

#[test]
fn enough_matches_align_with_derived_path() {
    let path = "imgs/frame1.png".to_string();
    let probe = CandidateProbe::Features { keypoint_count: 3, knn_rows: three_good_rows() };
    let (decision, diags) = decide_candidate(&path, 3, 3, &probe);
    match decision {
        Decision::Align { pairs, output_path } => {
            assert_eq!(pairs, vec![(0, 0), (1, 1), (2, 2)]);
            assert_eq!(output_path, "imgs/aligned_frame1.png");
        }
        Decision::Skipped => panic!("expected an aligned decision"),
    }
    assert_eq!(
        diags,
        vec![
            "Image: imgs/frame1.png, Matches found: 3, Min required: 3".to_string(),
            "Valid points extracted: 3".to_string(),
        ]
    );
}

#[test]
fn below_minimum_is_skipped() {
    let path = "imgs/frame1.png".to_string();
    let probe = CandidateProbe::Features { keypoint_count: 3, knn_rows: three_good_rows() };
    let (decision, diags) = decide_candidate(&path, 4, 3, &probe);
    assert!(matches!(decision, Decision::Skipped));
    assert_eq!(
        diags,
        vec![
            "Image: imgs/frame1.png, Matches found: 3, Min required: 4".to_string(),
            "Not enough matches (has 3, needed ≥4)".to_string(),
        ]
    );
}

#[test]
fn stray_indices_leave_too_few_points() {
    let path = "imgs/frame1.png".to_string();
    // Only the first correspondence survives the bound check against a single
    // candidate keypoint.
    let probe = CandidateProbe::Features { keypoint_count: 1, knn_rows: three_good_rows() };
    let (decision, diags) = decide_candidate(&path, 3, 3, &probe);
    assert!(matches!(decision, Decision::Skipped));
    assert_eq!(
        diags,
        vec![
            "Image: imgs/frame1.png, Matches found: 3, Min required: 3".to_string(),
            "Valid points extracted: 1".to_string(),
            "Not enough valid points (need at least 3): 1".to_string(),
        ]
    );
}

#[test]
fn textureless_candidate_is_skipped_without_error() {
    let path = "flat.png".to_string();
    let probe = CandidateProbe::Features { keypoint_count: 0, knn_rows: vec![] };
    let (decision, diags) = decide_candidate(&path, 0, 500, &probe);
    assert!(matches!(decision, Decision::Skipped));
    assert_eq!(
        diags,
        vec![
            "Image: flat.png, Matches found: 0, Min required: 0".to_string(),
            "Valid points extracted: 0".to_string(),
            "Not enough valid points (need at least 3): 0".to_string(),
        ]
    );
}

#[test]
fn raising_minimum_only_moves_aligned_to_skipped() {
    let path = "imgs/frame1.png".to_string();
    let probe = CandidateProbe::Features { keypoint_count: 3, knn_rows: three_good_rows() };
    let (lo, _) = decide_candidate(&path, 3, 3, &probe);
    let (hi, _) = decide_candidate(&path, 4, 3, &probe);
    assert!(matches!(lo, Decision::Align { .. }));
    assert!(matches!(hi, Decision::Skipped));
}

#[test]
fn empty_input_yields_empty_result() {
    let p = params("ref.png", &[], 10);
    let plan = plan_alignment(&p, 100, &vec![]);
    assert!(plan.entries.is_empty());
    assert!(plan.skipped_paths.is_empty());
    assert!(plan.debug_info.is_empty());
    let result = plan_to_result(plan, select_matcher(None, 100).label);
    assert!(result.aligned_paths.is_empty());
    assert!(result.skipped_paths.is_empty());
    assert_eq!(result.method_used, "BF (auto-selected)");
    assert!(result.debug_info.is_empty());
}

#[test]
fn every_candidate_is_classified_exactly_once() {
    let p = params("ref.png", &["ref.png", "bad.png", "imgs/frame1.png"], 3);
    // The probe of the reference candidate is ignored by contract.
    let probes = vec![
        CandidateProbe::LoadFailed,
        CandidateProbe::LoadFailed,
        CandidateProbe::Features { keypoint_count: 3, knn_rows: three_good_rows() },
    ];
    let plan = plan_alignment(&p, 3, &probes);
    assert_eq!(plan.entries.len() + plan.skipped_paths.len(), 3);
    assert_eq!(plan.skipped_paths, vec!["bad.png".to_string()]);
    assert_eq!(
        plan.debug_info,
        vec![
            "Skipped reference image: ref.png".to_string(),
            "Failed to load image: bad.png".to_string(),
            "Image: imgs/frame1.png, Matches found: 3, Min required: 3".to_string(),
            "Valid points extracted: 3".to_string(),
        ]
    );
    match &plan.entries[0] {
        PlanEntry::PassThrough { path } => assert_eq!(path, "ref.png"),
        PlanEntry::Warp { .. } => panic!("the reference passes through"),
    }
    match &plan.entries[1] {
        PlanEntry::Warp { input_path, pairs, output_path } => {
            assert_eq!(input_path, "imgs/frame1.png");
            assert_eq!(pairs, &vec![(0, 0), (1, 1), (2, 2)]);
            assert_eq!(output_path, "imgs/aligned_frame1.png");
        }
        PlanEntry::PassThrough { .. } => panic!("the candidate is warped"),
    }
    let result = plan_to_result(plan, "BF".to_string());
    assert_eq!(
        result.aligned_paths,
        vec!["ref.png".to_string(), "imgs/aligned_frame1.png".to_string()]
    );
    assert_eq!(result.method_used, "BF");
}

#[test]
fn duplicate_candidates_are_each_classified() {
    let p = params("ref.png", &["dup.png", "dup.png"], 1);
    let probes = vec![CandidateProbe::EmptyImage, CandidateProbe::EmptyImage];
    let plan = plan_alignment(&p, 10, &probes);
    assert_eq!(plan.entries.len(), 0);
    assert_eq!(
        plan.skipped_paths,
        vec!["dup.png".to_string(), "dup.png".to_string()]
    );
}

#[test]
fn identical_inputs_classify_identically() {
    let p = params("ref.png", &["ref.png", "a.png", "b.png"], 2);
    let probes = vec![
        CandidateProbe::LoadFailed,
        CandidateProbe::Features { keypoint_count: 3, knn_rows: three_good_rows() },
        CandidateProbe::EmptyImage,
    ];
    let first = plan_to_result(plan_alignment(&p, 3, &probes), "BF".to_string());
    let second = plan_to_result(plan_alignment(&p, 3, &probes), "BF".to_string());
    assert_eq!(first.aligned_paths, second.aligned_paths);
    assert_eq!(first.skipped_paths, second.skipped_paths);
    assert_eq!(first.debug_info, second.debug_info);
}

#[test]
fn self_alignment_under_a_distinct_path_aligns() {
    // A copy of the reference under another name matches itself nearly
    // perfectly: every best distance is zero against a clearly worse second
    // neighbour, so the ratio test keeps all correspondences and the
    // candidate is aligned for any reasonable minimum.
    let path = "copy/ref_copy.png".to_string();
    let rows: Vec<Vec<FeatureMatch>> =
        (0..20).map(|i| vec![m(i, i, 0), m(i, (i + 1) % 20, 60)]).collect();
    let probe = CandidateProbe::Features { keypoint_count: 20, knn_rows: rows };
    let (decision, _) = decide_candidate(&path, 10, 20, &probe);
    match decision {
        Decision::Align { pairs, output_path } => {
            assert_eq!(pairs.len(), 20);
            assert!(pairs.iter().enumerate().all(|(i, p)| p.0 == i && p.1 == i));
            assert_eq!(output_path, "copy/aligned_ref_copy.png");
        }
        Decision::Skipped => panic!("a self-match must pass the ratio test"),
    }
}

#[test]
fn matcher_method_override_is_explicit_in_params() {
    let mut p = params("ref.png", &[], 0);
    p.matcher_method = Some(MatcherMethod::FLANN);
    let sel = select_matcher(p.matcher_method, 10);
    assert!(sel.use_flann);
    assert_eq!(sel.label, "FLANN");
}
