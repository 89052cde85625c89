use image_stacker::matching::{filter_valid_pairs, ratio_test, FeatureMatch};
use image_stacker::paths::derive_output_path;

fn m(query_idx: usize, train_idx: usize, distance: u32) -> FeatureMatch {
    FeatureMatch { query_idx, train_idx, distance }
}

#[test]
fn ratio_test_accepts_clear_winner() {
    let rows = vec![vec![m(0, 4, 3), m(0, 9, 4)]];
    let good = ratio_test(&rows);
    assert_eq!(good, vec![m(0, 4, 3)]);
}

#[test]
fn ratio_test_rejects_exact_boundary() {
    // 4 against 5 sits exactly on the 0.8 threshold and must be rejected.
    let rows = vec![vec![m(0, 0, 4), m(0, 1, 5)]];
    assert_eq!(ratio_test(&rows), vec![]);
}

#[test]
fn ratio_test_needs_two_neighbours() {
    let rows = vec![vec![m(0, 0, 1)], vec![], vec![m(2, 1, 1), m(2, 3, 100)]];
    assert_eq!(ratio_test(&rows), vec![m(2, 1, 1)]);
}

#[test]
fn ratio_test_keeps_row_order() {
    let rows = vec![
        vec![m(0, 5, 10), m(0, 6, 100)],
        vec![m(1, 2, 99), m(1, 3, 100)],
        vec![m(2, 7, 0), m(2, 8, 1)],
    ];
    let good = ratio_test(&rows);
    assert_eq!(good, vec![m(0, 5, 10), m(2, 7, 0)]);
}

#[test]
fn ratio_test_zero_distances_rejected() {
    // 5 * 0 < 4 * 0 is false: a degenerate pair is ambiguous, not a match.
    let rows = vec![vec![m(0, 0, 0), m(0, 1, 0)]];
    assert_eq!(ratio_test(&rows), vec![]);
}

#[test]
fn bound_check_drops_stray_indices() {
    let ms = vec![m(0, 0, 1), m(9, 0, 1), m(1, 9, 1), m(2, 3, 1)];
    let pairs = filter_valid_pairs(&ms, 5, 4);
    assert_eq!(pairs, vec![(0, 0), (2, 3)]);
}

#[test]
fn output_path_keeps_directory_and_extension() {
    assert_eq!(
        derive_output_path(&"/a/b/c.png".to_string()),
        "/a/b/aligned_c.png"
    );
    assert_eq!(
        derive_output_path(&"imgs/frame1.tif".to_string()),
        "imgs/aligned_frame1.tif"
    );
}

#[test]
fn output_path_for_bare_filename() {
    assert_eq!(derive_output_path(&"foo.png".to_string()), "/aligned_foo.png");
}

#[test]
fn output_path_uses_last_dot_for_extension() {
    assert_eq!(
        derive_output_path(&"a/b.tar.gz".to_string()),
        "a/aligned_b.tar.gz"
    );
}

#[test]
fn output_path_without_extension_gets_bare_dot() {
    assert_eq!(
        derive_output_path(&"dir/noext".to_string()),
        "dir/aligned_noext."
    );
}

#[test]
fn output_path_hidden_file_has_no_extension() {
    assert_eq!(
        derive_output_path(&"dir/.hidden".to_string()),
        "dir/aligned_.hidden."
    );
}
