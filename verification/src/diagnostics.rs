//! The human-readable lines of the diagnostic trail and the hard-error
//! messages, each pinned down character for character.

use crate::text::dec_chars;
use crate::text::push_decimal;
use vstd::prelude::*;
use vstd::string::StringExecFns;

verus! {

/// Trail line for a candidate that is the reference itself.
pub open spec fn diag_reference_passthrough(path: Seq<char>) -> Seq<char> {
    "Skipped reference image: "@ + path
}

/// Trail line for a candidate whose file could not be loaded.
pub open spec fn diag_load_failed(path: Seq<char>) -> Seq<char> {
    "Failed to load image: "@ + path
}

/// Trail line for a candidate that decoded to an empty image.
pub open spec fn diag_empty_image(path: Seq<char>) -> Seq<char> {
    "Image is empty: "@ + path
}

/// Trail line reporting the correspondence count against the configured
/// minimum, recorded for every matched candidate regardless of outcome.
pub open spec fn diag_match_report(path: Seq<char>, found: nat, required: nat) -> Seq<char> {
    "Image: "@ + path + ", Matches found: "@ + dec_chars(found) + ", Min required: "@ + dec_chars(
        required,
    )
}

/// Trail line for a candidate with too few surviving correspondences.
pub open spec fn diag_too_few_matches(found: nat, required: nat) -> Seq<char> {
    "Not enough matches (has "@ + dec_chars(found) + ", needed ≥"@ + dec_chars(required) + ")"@
}

/// Trail line reporting how many correspondences survived the bound check.
pub open spec fn diag_valid_points(n: nat) -> Seq<char> {
    "Valid points extracted: "@ + dec_chars(n)
}

/// Trail line for a candidate with fewer than the three valid points the
/// estimator needs.
pub open spec fn diag_too_few_points(n: nat) -> Seq<char> {
    "Not enough valid points (need at least 3): "@ + dec_chars(n)
}

/// Hard-error message for a reference image that could not be loaded.
pub open spec fn err_reference_load(path: Seq<char>) -> Seq<char> {
    "Failed to load reference image: "@ + path
}

/// Hard-error message for a reference image that decoded to nothing.
pub open spec fn err_reference_empty(path: Seq<char>) -> Seq<char> {
    "Reference image is empty or could not be read: "@ + path
}

/// Hard-error message when the selected matcher backend is unavailable.
pub open spec fn err_matcher_unavailable(use_flann: bool) -> Seq<char> {
    if use_flann {
        "Failed to create FLANN matcher"@
    } else {
        "Failed to create BF matcher"@
    }
}

/// Error message of the probe for a path that does not exist.
pub open spec fn err_missing_file(path: Seq<char>) -> Seq<char> {
    "File does not exist: "@ + path
}

/// Error message of the probe for a file that does not decode; `detail` is
/// the decoder's own account.
pub open spec fn err_decode(path: Seq<char>, detail: Seq<char>) -> Seq<char> {
    "Failed to load image '"@ + path + "': "@ + detail
}

/// Builds `diag_reference_passthrough`.
pub fn reference_passthrough_msg(path: &String) -> (m: String)
    ensures
        m@ == diag_reference_passthrough(path@),
{
    let mut m = String::from_str("Skipped reference image: ");
    m.append(path.as_str());
    m
}

/// Builds `diag_load_failed`.
pub fn load_failed_msg(path: &String) -> (m: String)
    ensures
        m@ == diag_load_failed(path@),
{
    let mut m = String::from_str("Failed to load image: ");
    m.append(path.as_str());
    m
}

/// Builds `diag_empty_image`.
pub fn empty_image_msg(path: &String) -> (m: String)
    ensures
        m@ == diag_empty_image(path@),
{
    let mut m = String::from_str("Image is empty: ");
    m.append(path.as_str());
    m
}

/// Builds `diag_match_report`.
pub fn match_report_msg(path: &String, found: u64, required: u64) -> (m: String)
    ensures
        m@ == diag_match_report(path@, found as nat, required as nat),
{
    let mut m = String::from_str("Image: ");
    m.append(path.as_str());
    m.append(", Matches found: ");
    push_decimal(&mut m, found);
    m.append(", Min required: ");
    push_decimal(&mut m, required);
    proof {
        assert(m@ =~= diag_match_report(path@, found as nat, required as nat));
    }
    m
}

/// Builds `diag_too_few_matches`.
pub fn too_few_matches_msg(found: u64, required: u64) -> (m: String)
    ensures
        m@ == diag_too_few_matches(found as nat, required as nat),
{
    let mut m = String::from_str("Not enough matches (has ");
    push_decimal(&mut m, found);
    m.append(", needed ≥");
    push_decimal(&mut m, required);
    m.append(")");
    proof {
        assert(m@ =~= diag_too_few_matches(found as nat, required as nat));
    }
    m
}

/// Builds `diag_valid_points`.
pub fn valid_points_msg(n: u64) -> (m: String)
    ensures
        m@ == diag_valid_points(n as nat),
{
    let mut m = String::from_str("Valid points extracted: ");
    push_decimal(&mut m, n);
    m
}

/// Builds `diag_too_few_points`.
pub fn too_few_points_msg(n: u64) -> (m: String)
    ensures
        m@ == diag_too_few_points(n as nat),
{
    let mut m = String::from_str("Not enough valid points (need at least 3): ");
    push_decimal(&mut m, n);
    m
}

/// Builds `err_reference_load`.
pub fn reference_load_error(path: &String) -> (m: String)
    ensures
        m@ == err_reference_load(path@),
{
    let mut m = String::from_str("Failed to load reference image: ");
    m.append(path.as_str());
    m
}

/// Builds `err_reference_empty`.
pub fn reference_empty_error(path: &String) -> (m: String)
    ensures
        m@ == err_reference_empty(path@),
{
    let mut m = String::from_str("Reference image is empty or could not be read: ");
    m.append(path.as_str());
    m
}

/// Builds `err_matcher_unavailable`.
pub fn matcher_unavailable_error(use_flann: bool) -> (m: String)
    ensures
        m@ == err_matcher_unavailable(use_flann),
{
    if use_flann {
        String::from_str("Failed to create FLANN matcher")
    } else {
        String::from_str("Failed to create BF matcher")
    }
}

/// Builds `err_missing_file`.
pub fn missing_file_error(path: &String) -> (m: String)
    ensures
        m@ == err_missing_file(path@),
{
    let mut m = String::from_str("File does not exist: ");
    m.append(path.as_str());
    m
}

/// Builds `err_decode`.
pub fn decode_error(path: &String, detail: &String) -> (m: String)
    ensures
        m@ == err_decode(path@, detail@),
{
    let mut m = String::from_str("Failed to load image '");
    m.append(path.as_str());
    m.append("': ");
    m.append(detail.as_str());
    proof {
        assert(m@ =~= err_decode(path@, detail@));
    }
    m
}

} // verus!
