//! The orchestrator: the per-candidate state machine, the run plan it
//! accumulates, and the laws the classification obeys.
//!
//! The host drives the pixel work and reports, per candidate, what it
//! observed as a [`CandidateProbe`]. Everything decided from those
//! observations — pass-through of the reference, skipping, the surviving
//! correspondences, the destination path, the diagnostic trail — is
//! computed and proved here.

use crate::diagnostics::diag_empty_image;
use crate::diagnostics::diag_load_failed;
use crate::diagnostics::diag_match_report;
use crate::diagnostics::diag_reference_passthrough;
use crate::diagnostics::diag_too_few_matches;
use crate::diagnostics::diag_too_few_points;
use crate::diagnostics::diag_valid_points;
use crate::diagnostics::empty_image_msg;
use crate::diagnostics::load_failed_msg;
use crate::diagnostics::match_report_msg;
use crate::diagnostics::reference_passthrough_msg;
use crate::diagnostics::too_few_matches_msg;
use crate::diagnostics::too_few_points_msg;
use crate::diagnostics::valid_points_msg;
use crate::matching::filter_valid_pairs;
use crate::matching::good_matches_of;
use crate::matching::ratio_test;
use crate::matching::rows_view;
use crate::matching::valid_pairs_of;
use crate::matching::FeatureMatch;
use crate::paths::derive_output_path;
use crate::paths::output_path_of;
use crate::selection::MatcherMethod;
use vstd::prelude::*;

verus! {

/// What the host observed of one candidate before any decision: the file
/// did not load, it decoded to an empty image, or features were detected
/// and matched, giving the candidate's keypoint count and the two nearest
/// reference neighbours of each candidate descriptor.
#[derive(Debug)]
pub enum CandidateProbe {
    LoadFailed,
    EmptyImage,
    Features { keypoint_count: usize, knn_rows: Vec<Vec<FeatureMatch>> },
}

/// The mathematical content of a probe.
pub enum ProbeModel {
    LoadFailed,
    EmptyImage,
    Features { keypoint_count: nat, knn_rows: Seq<Seq<FeatureMatch>> },
}

impl View for CandidateProbe {
    type V = ProbeModel;

    open spec fn view(&self) -> ProbeModel {
        match self {
            CandidateProbe::LoadFailed => ProbeModel::LoadFailed,
            CandidateProbe::EmptyImage => ProbeModel::EmptyImage,
            CandidateProbe::Features { keypoint_count, knn_rows } => ProbeModel::Features {
                keypoint_count: *keypoint_count as nat,
                knn_rows: rows_view(knn_rows@),
            },
        }
    }
}

/// The verdict for one candidate that is not the reference: skip it, or
/// align it by warping along the surviving correspondences and writing the
/// result to the derived path.
#[derive(Debug)]
pub enum Decision {
    Skipped,
    Align { pairs: Vec<(usize, usize)>, output_path: String },
}

/// The mathematical content of a verdict.
pub enum DecisionModel {
    Skipped,
    Align { pairs: Seq<(usize, usize)>, output_path: Seq<char> },
}

impl View for Decision {
    type V = DecisionModel;

    open spec fn view(&self) -> DecisionModel {
        match self {
            Decision::Skipped => DecisionModel::Skipped,
            Decision::Align { pairs, output_path } => DecisionModel::Align {
                pairs: pairs@,
                output_path: output_path@,
            },
        }
    }
}

/// The mathematical contents of a vector of strings.
pub open spec fn strings_view(v: Seq<String>) -> Seq<Seq<char>> {
    v.map_values(|s: String| s@)
}

/// The mathematical contents of a vector of probes.
pub open spec fn probes_view(v: Seq<CandidateProbe>) -> Seq<ProbeModel> {
    v.map_values(|p: CandidateProbe| p@)
}

/// The verdict for one candidate: a failed or empty load skips it; then the
/// ratio-test survivors must reach `min_matches`; then the correspondences
/// surviving the bound check must number at least the three points the
/// estimator needs.
pub open spec fn decide_model(
    path: Seq<char>,
    min_matches: nat,
    ref_keypoint_count: nat,
    probe: ProbeModel,
) -> DecisionModel {
    match probe {
        ProbeModel::LoadFailed => DecisionModel::Skipped,
        ProbeModel::EmptyImage => DecisionModel::Skipped,
        ProbeModel::Features { keypoint_count, knn_rows } => {
            let good = good_matches_of(knn_rows);
            if good.len() < min_matches {
                DecisionModel::Skipped
            } else {
                let pairs = valid_pairs_of(good, keypoint_count, ref_keypoint_count);
                if pairs.len() < 3 {
                    DecisionModel::Skipped
                } else {
                    DecisionModel::Align { pairs, output_path: output_path_of(path) }
                }
            }
        },
    }
}

/// The trail lines one candidate's decision records, in order.
pub open spec fn decide_diags(
    path: Seq<char>,
    min_matches: nat,
    ref_keypoint_count: nat,
    probe: ProbeModel,
) -> Seq<Seq<char>> {
    match probe {
        ProbeModel::LoadFailed => seq![diag_load_failed(path)],
        ProbeModel::EmptyImage => seq![diag_empty_image(path)],
        ProbeModel::Features { keypoint_count, knn_rows } => {
            let good = good_matches_of(knn_rows);
            if good.len() < min_matches {
                seq![
                    diag_match_report(path, good.len(), min_matches),
                    diag_too_few_matches(good.len(), min_matches),
                ]
            } else {
                let pairs = valid_pairs_of(good, keypoint_count, ref_keypoint_count);
                if pairs.len() < 3 {
                    seq![
                        diag_match_report(path, good.len(), min_matches),
                        diag_valid_points(pairs.len()),
                        diag_too_few_points(pairs.len()),
                    ]
                } else {
                    seq![
                        diag_match_report(path, good.len(), min_matches),
                        diag_valid_points(pairs.len()),
                    ]
                }
            }
        },
    }
}

/// Decides one candidate that is not the reference, and returns the trail
/// lines the decision records.
pub fn decide_candidate(
    path: &String,
    min_matches: usize,
    ref_keypoint_count: usize,
    probe: &CandidateProbe,
) -> (r: (Decision, Vec<String>))
    ensures
        r.0@ == decide_model(path@, min_matches as nat, ref_keypoint_count as nat, probe@),
        strings_view(r.1@) == decide_diags(
            path@,
            min_matches as nat,
            ref_keypoint_count as nat,
            probe@,
        ),
{
    match probe {
        CandidateProbe::LoadFailed => {
            let diags = vec![load_failed_msg(path)];
            proof {
                assert(strings_view(diags@) =~= decide_diags(
                    path@,
                    min_matches as nat,
                    ref_keypoint_count as nat,
                    probe@,
                ));
            }
            (Decision::Skipped, diags)
        },
        CandidateProbe::EmptyImage => {
            let diags = vec![empty_image_msg(path)];
            proof {
                assert(strings_view(diags@) =~= decide_diags(
                    path@,
                    min_matches as nat,
                    ref_keypoint_count as nat,
                    probe@,
                ));
            }
            (Decision::Skipped, diags)
        },
        CandidateProbe::Features { keypoint_count, knn_rows } => {
            let good = ratio_test(knn_rows);
            let found = good.len();
            let report = match_report_msg(path, found as u64, min_matches as u64);
            if found < min_matches {
                let diags = vec![report, too_few_matches_msg(found as u64, min_matches as u64)];
                proof {
                    assert(strings_view(diags@) =~= decide_diags(
                        path@,
                        min_matches as nat,
                        ref_keypoint_count as nat,
                        probe@,
                    ));
                }
                (Decision::Skipped, diags)
            } else {
                let pairs = filter_valid_pairs(&good, *keypoint_count, ref_keypoint_count);
                let points = pairs.len();
                if points < 3 {
                    let diags = vec![
                        report,
                        valid_points_msg(points as u64),
                        too_few_points_msg(points as u64),
                    ];
                    proof {
                        assert(strings_view(diags@) =~= decide_diags(
                            path@,
                            min_matches as nat,
                            ref_keypoint_count as nat,
                            probe@,
                        ));
                    }
                    (Decision::Skipped, diags)
                } else {
                    let output_path = derive_output_path(path);
                    let diags = vec![report, valid_points_msg(points as u64)];
                    proof {
                        assert(strings_view(diags@) =~= decide_diags(
                            path@,
                            min_matches as nat,
                            ref_keypoint_count as nat,
                            probe@,
                        ));
                    }
                    (Decision::Align { pairs, output_path }, diags)
                }
            }
        },
    }
}

/// The inputs of one alignment run. The feature sensitivity is carried in
/// thousandths: 1000 stands for a factor of one.
#[derive(Debug)]
pub struct AlignmentParams {
    pub reference_image_path: String,
    pub image_paths: Vec<String>,
    pub feature_sensitivity: u32,
    pub min_matches: usize,
    pub allow_rotation: bool,
    pub matcher_method: Option<MatcherMethod>,
}

/// The outcome of one alignment run: the output paths of the aligned
/// frames, the input paths of the skipped ones, the matcher label actually
/// used, and the diagnostic trail in processing order.
#[derive(Debug)]
pub struct AlignmentResult {
    pub aligned_paths: Vec<String>,
    pub skipped_paths: Vec<String>,
    pub method_used: String,
    pub debug_info: Vec<String>,
}

/// One entry of the aligned list, in input order: a candidate passed
/// through because it is the reference itself, or a warp job whose output
/// path joins the list once the host has carried it out.
#[derive(Debug)]
pub enum PlanEntry {
    PassThrough { path: String },
    Warp { input_path: String, pairs: Vec<(usize, usize)>, output_path: String },
}

/// The mathematical content of an aligned-list entry.
pub enum PlanEntryModel {
    PassThrough { path: Seq<char> },
    Warp { input_path: Seq<char>, pairs: Seq<(usize, usize)>, output_path: Seq<char> },
}

impl View for PlanEntry {
    type V = PlanEntryModel;

    open spec fn view(&self) -> PlanEntryModel {
        match self {
            PlanEntry::PassThrough { path } => PlanEntryModel::PassThrough { path: path@ },
            PlanEntry::Warp { input_path, pairs, output_path } => PlanEntryModel::Warp {
                input_path: input_path@,
                pairs: pairs@,
                output_path: output_path@,
            },
        }
    }
}

/// The mathematical contents of a vector of plan entries.
pub open spec fn entries_view(v: Seq<PlanEntry>) -> Seq<PlanEntryModel> {
    v.map_values(|e: PlanEntry| e@)
}

/// The classification of a whole run: the aligned-list entries, the skipped
/// paths, and the diagnostic trail, each in input order.
#[derive(Debug)]
pub struct AlignmentPlan {
    pub entries: Vec<PlanEntry>,
    pub skipped_paths: Vec<String>,
    pub debug_info: Vec<String>,
}

/// The mathematical content of a plan.
pub struct PlanModel {
    pub entries: Seq<PlanEntryModel>,
    pub skipped: Seq<Seq<char>>,
    pub debug: Seq<Seq<char>>,
}

impl View for AlignmentPlan {
    type V = PlanModel;

    open spec fn view(&self) -> PlanModel {
        PlanModel {
            entries: entries_view(self.entries@),
            skipped: strings_view(self.skipped_paths@),
            debug: strings_view(self.debug_info@),
        }
    }
}

/// What one candidate contributes to the plan. A candidate whose path
/// equals the reference path is passed through unprocessed; any other is
/// classified by its decision.
pub open spec fn candidate_step_model(
    reference_path: Seq<char>,
    min_matches: nat,
    ref_keypoint_count: nat,
    path: Seq<char>,
    probe: ProbeModel,
) -> PlanModel {
    if path == reference_path {
        PlanModel {
            entries: seq![PlanEntryModel::PassThrough { path }],
            skipped: Seq::empty(),
            debug: seq![diag_reference_passthrough(path)],
        }
    } else {
        match decide_model(path, min_matches, ref_keypoint_count, probe) {
            DecisionModel::Skipped => PlanModel {
                entries: Seq::empty(),
                skipped: seq![path],
                debug: decide_diags(path, min_matches, ref_keypoint_count, probe),
            },
            DecisionModel::Align { pairs, output_path } => PlanModel {
                entries: seq![
                    PlanEntryModel::Warp { input_path: path, pairs, output_path },
                ],
                skipped: Seq::empty(),
                debug: decide_diags(path, min_matches, ref_keypoint_count, probe),
            },
        }
    }
}

/// The plan a run accumulates over its candidates, in input order.
pub open spec fn plan_model(
    reference_path: Seq<char>,
    min_matches: nat,
    ref_keypoint_count: nat,
    paths: Seq<Seq<char>>,
    probes: Seq<ProbeModel>,
) -> PlanModel
    decreases paths.len(),
{
    if paths.len() == 0 {
        PlanModel { entries: Seq::empty(), skipped: Seq::empty(), debug: Seq::empty() }
    } else {
        let prev = plan_model(
            reference_path,
            min_matches,
            ref_keypoint_count,
            paths.drop_last(),
            probes.drop_last(),
        );
        let step = candidate_step_model(
            reference_path,
            min_matches,
            ref_keypoint_count,
            paths.last(),
            probes.last(),
        );
        PlanModel {
            entries: prev.entries + step.entries,
            skipped: prev.skipped + step.skipped,
            debug: prev.debug + step.debug,
        }
    }
}

/// Classifies every candidate of a run, in input order. The host performs
/// the returned warp jobs afterwards; any failure there aborts the whole
/// run, so on success the aligned entries are final. The probe of a
/// candidate whose path equals the reference path is ignored.
pub fn plan_alignment(
    params: &AlignmentParams,
    ref_keypoint_count: usize,
    probes: &Vec<CandidateProbe>,
) -> (plan: AlignmentPlan)
    requires
        probes@.len() == params.image_paths@.len(),
    ensures
        plan@ == plan_model(
            params.reference_image_path@,
            params.min_matches as nat,
            ref_keypoint_count as nat,
            strings_view(params.image_paths@),
            probes_view(probes@),
        ),
        plan.entries@.len() + plan.skipped_paths@.len() == params.image_paths@.len(),
{
    let mut entries: Vec<PlanEntry> = Vec::new();
    let mut skipped: Vec<String> = Vec::new();
    let mut debug: Vec<String> = Vec::new();
    let n = params.image_paths.len();
    let mut i: usize = 0;
    while i < n
        invariant
            i <= n,
            n == params.image_paths@.len(),
            probes@.len() == n,
            entries_view(entries@) == plan_model(
                params.reference_image_path@,
                params.min_matches as nat,
                ref_keypoint_count as nat,
                strings_view(params.image_paths@.take(i as int)),
                probes_view(probes@.take(i as int)),
            ).entries,
            strings_view(skipped@) == plan_model(
                params.reference_image_path@,
                params.min_matches as nat,
                ref_keypoint_count as nat,
                strings_view(params.image_paths@.take(i as int)),
                probes_view(probes@.take(i as int)),
            ).skipped,
            strings_view(debug@) == plan_model(
                params.reference_image_path@,
                params.min_matches as nat,
                ref_keypoint_count as nat,
                strings_view(params.image_paths@.take(i as int)),
                probes_view(probes@.take(i as int)),
            ).debug,
            entries@.len() + skipped@.len() == i,
        decreases n - i,
    {
        let path = &params.image_paths[i];
        let probe = &probes[i];
        let ghost paths1 = strings_view(params.image_paths@.take(i + 1));
        let ghost probes1 = probes_view(probes@.take(i + 1));
        proof {
            assert(paths1.drop_last() =~= strings_view(params.image_paths@.take(i as int)));
            assert(paths1.last() == path@);
            assert(probes1.drop_last() =~= probes_view(probes@.take(i as int)));
            assert(probes1.last() == probe@);
        }
        if *path == params.reference_image_path {
            entries.push(PlanEntry::PassThrough { path: path.clone() });
            debug.push(reference_passthrough_msg(path));
            proof {
                let m1 = plan_model(
                    params.reference_image_path@,
                    params.min_matches as nat,
                    ref_keypoint_count as nat,
                    paths1,
                    probes1,
                );
                assert(entries_view(entries@) =~= m1.entries);
                assert(strings_view(skipped@) =~= m1.skipped);
                assert(strings_view(debug@) =~= m1.debug);
            }
        } else {
            let decided = decide_candidate(
                path,
                params.min_matches,
                ref_keypoint_count,
                probe,
            );
            let decision = decided.0;
            let mut diags = decided.1;
            let ghost debug_before = debug@;
            debug.append(&mut diags);
            proof {
                assert(strings_view(debug@) =~= strings_view(debug_before) + strings_view(
                    decided.1@,
                ));
            }
            match decision {
                Decision::Skipped => {
                    skipped.push(path.clone());
                },
                Decision::Align { pairs, output_path } => {
                    entries.push(
                        PlanEntry::Warp { input_path: path.clone(), pairs, output_path },
                    );
                },
            }
            proof {
                let m1 = plan_model(
                    params.reference_image_path@,
                    params.min_matches as nat,
                    ref_keypoint_count as nat,
                    paths1,
                    probes1,
                );
                assert(entries_view(entries@) =~= m1.entries);
                assert(strings_view(skipped@) =~= m1.skipped);
                assert(strings_view(debug@) =~= m1.debug);
            }
        }
        i = i + 1;
    }
    proof {
        assert(params.image_paths@.take(n as int) =~= params.image_paths@);
        assert(probes@.take(n as int) =~= probes@);
    }
    AlignmentPlan { entries, skipped_paths: skipped, debug_info: debug }
}

/// The aligned path one plan entry contributes.
pub open spec fn aligned_path_of(e: PlanEntryModel) -> Seq<char> {
    match e {
        PlanEntryModel::PassThrough { path } => path,
        PlanEntryModel::Warp { output_path, .. } => output_path,
    }
}

/// The aligned list a plan yields once every warp job has been carried out.
pub open spec fn aligned_paths_of(entries: Seq<PlanEntryModel>) -> Seq<Seq<char>> {
    entries.map_values(|e: PlanEntryModel| aligned_path_of(e))
}

/// Seals a finished run: the aligned list reads off the entries in order,
/// pass-through paths as they were and warp jobs by their output paths.
pub fn plan_to_result(plan: AlignmentPlan, method_used: String) -> (result: AlignmentResult)
    ensures
        strings_view(result.aligned_paths@) == aligned_paths_of(plan@.entries),
        strings_view(result.skipped_paths@) == plan@.skipped,
        result.method_used@ == method_used@,
        strings_view(result.debug_info@) == plan@.debug,
        result.aligned_paths@.len() == plan@.entries.len(),
{
    let mut aligned: Vec<String> = Vec::new();
    let n = plan.entries.len();
    let mut i: usize = 0;
    while i < n
        invariant
            i <= n,
            n == plan.entries@.len(),
            strings_view(aligned@) == aligned_paths_of(entries_view(plan.entries@.take(i as int))),
            aligned@.len() == i,
        decreases n - i,
    {
        let e = &plan.entries[i];
        let out: String = match e {
            PlanEntry::PassThrough { path } => path.clone(),
            PlanEntry::Warp { output_path, .. } => output_path.clone(),
        };
        let ghost before = aligned@;
        aligned.push(out);
        proof {
            let prior = entries_view(plan.entries@.take(i as int));
            let ev1 = entries_view(plan.entries@.take(i + 1));
            assert(ev1.len() == i + 1);
            assert(ev1.drop_last() =~= prior);
            assert(ev1.last() == plan.entries@[i as int]@);
            assert(out@ == aligned_path_of(plan.entries@[i as int]@));
            assert forall|k: int| 0 <= k < ev1.len() implies strings_view(aligned@)[k]
                == aligned_paths_of(ev1)[k] by {
                assert(aligned_paths_of(ev1)[k] == aligned_path_of(ev1[k]));
                if k < i {
                    assert(aligned@[k] == before[k]);
                    assert(strings_view(aligned@)[k] == before[k]@);
                    assert(strings_view(before)[k] == before[k]@);
                    assert(strings_view(before)[k] == aligned_paths_of(prior)[k]);
                    assert(aligned_paths_of(prior)[k] == aligned_path_of(prior[k]));
                    assert(ev1[k] == ev1.drop_last()[k]);
                    assert(ev1[k] == prior[k]);
                } else {
                    assert(k == i);
                    assert(aligned@[k] == out);
                    assert(strings_view(aligned@)[k] == out@);
                    assert(ev1[k] == plan.entries@[i as int]@);
                }
            }
            assert(strings_view(aligned@) =~= aligned_paths_of(ev1));
        }
        i = i + 1;
    }
    proof {
        assert(plan.entries@.take(n as int) =~= plan.entries@);
    }
    AlignmentResult {
        aligned_paths: aligned,
        skipped_paths: plan.skipped_paths,
        method_used,
        debug_info: plan.debug_info,
    }
}

/// Every candidate is classified exactly once: the aligned entries and the
/// skipped paths together count the candidates.
pub proof fn lemma_every_candidate_classified(
    reference_path: Seq<char>,
    min_matches: nat,
    ref_keypoint_count: nat,
    paths: Seq<Seq<char>>,
    probes: Seq<ProbeModel>,
)
    ensures
        plan_model(reference_path, min_matches, ref_keypoint_count, paths, probes).entries.len()
            + plan_model(
            reference_path,
            min_matches,
            ref_keypoint_count,
            paths,
            probes,
        ).skipped.len() == paths.len(),
    decreases paths.len(),
{
    if paths.len() > 0 {
        lemma_every_candidate_classified(
            reference_path,
            min_matches,
            ref_keypoint_count,
            paths.drop_last(),
            probes.drop_last(),
        );
    }
}

/// Raising the minimum match count can only turn an aligned candidate into
/// a skipped one, never the reverse: a candidate aligned under the higher
/// minimum is aligned, with the same pairs and output path, under the lower.
pub proof fn lemma_min_matches_monotone(
    path: Seq<char>,
    lo: nat,
    hi: nat,
    ref_keypoint_count: nat,
    probe: ProbeModel,
)
    requires
        lo <= hi,
    ensures
        decide_model(path, hi, ref_keypoint_count, probe) is Align ==> decide_model(
            path,
            lo,
            ref_keypoint_count,
            probe,
        ) == decide_model(path, hi, ref_keypoint_count, probe),
{
}

/// Whether one candidate ends in the aligned list.
pub open spec fn candidate_aligned(
    reference_path: Seq<char>,
    min_matches: nat,
    ref_keypoint_count: nat,
    path: Seq<char>,
    probe: ProbeModel,
) -> bool {
    path == reference_path || decide_model(path, min_matches, ref_keypoint_count, probe) is Align
}

/// `candidate_aligned` names exactly the candidates that contribute an
/// aligned-list entry; the others contribute their path to the skipped list.
pub proof fn lemma_step_entry_iff_aligned(
    reference_path: Seq<char>,
    min_matches: nat,
    ref_keypoint_count: nat,
    path: Seq<char>,
    probe: ProbeModel,
)
    ensures
        candidate_aligned(reference_path, min_matches, ref_keypoint_count, path, probe)
            ==> candidate_step_model(
            reference_path,
            min_matches,
            ref_keypoint_count,
            path,
            probe,
        ).entries.len() == 1 && candidate_step_model(
            reference_path,
            min_matches,
            ref_keypoint_count,
            path,
            probe,
        ).skipped.len() == 0,
        !candidate_aligned(reference_path, min_matches, ref_keypoint_count, path, probe)
            ==> candidate_step_model(
            reference_path,
            min_matches,
            ref_keypoint_count,
            path,
            probe,
        ).entries.len() == 0 && candidate_step_model(
            reference_path,
            min_matches,
            ref_keypoint_count,
            path,
            probe,
        ).skipped =~= seq![path],
{
}

/// Over a whole run, raising the minimum is monotone per candidate: each
/// one aligned under the higher minimum is aligned under the lower.
pub proof fn lemma_run_min_matches_monotone(
    reference_path: Seq<char>,
    lo: nat,
    hi: nat,
    ref_keypoint_count: nat,
    paths: Seq<Seq<char>>,
    probes: Seq<ProbeModel>,
)
    requires
        lo <= hi,
        paths.len() == probes.len(),
    ensures
        forall|i: int|
            0 <= i < paths.len() ==> (candidate_aligned(
                reference_path,
                hi,
                ref_keypoint_count,
                paths[i],
                probes[i],
            ) ==> candidate_aligned(reference_path, lo, ref_keypoint_count, paths[i], probes[i])),
{
    assert forall|i: int|
        0 <= i < paths.len() && candidate_aligned(
            reference_path,
            hi,
            ref_keypoint_count,
            paths[i],
            probes[i],
        ) implies candidate_aligned(
        reference_path,
        lo,
        ref_keypoint_count,
        paths[i],
        probes[i],
    ) by {
        lemma_min_matches_monotone(paths[i], lo, hi, ref_keypoint_count, probes[i]);
    }
}

/// Under the higher minimum a run aligns no more candidates than under the
/// lower one.
pub proof fn lemma_run_aligned_count_monotone(
    reference_path: Seq<char>,
    lo: nat,
    hi: nat,
    ref_keypoint_count: nat,
    paths: Seq<Seq<char>>,
    probes: Seq<ProbeModel>,
)
    requires
        lo <= hi,
    ensures
        plan_model(reference_path, hi, ref_keypoint_count, paths, probes).entries.len()
            <= plan_model(reference_path, lo, ref_keypoint_count, paths, probes).entries.len(),
    decreases paths.len(),
{
    if paths.len() > 0 {
        lemma_run_aligned_count_monotone(
            reference_path,
            lo,
            hi,
            ref_keypoint_count,
            paths.drop_last(),
            probes.drop_last(),
        );
        lemma_min_matches_monotone(paths.last(), lo, hi, ref_keypoint_count, probes.last());
    }
}

/// Identical inputs classify identically: the plan is a function of the
/// reference path, the thresholds and the candidates' observations alone,
/// so re-running a plan changes nothing.
pub proof fn lemma_plan_deterministic(
    reference_path: Seq<char>,
    min_matches: nat,
    ref_keypoint_count: nat,
    paths: Seq<Seq<char>>,
    probes: Seq<ProbeModel>,
    first: PlanModel,
    second: PlanModel,
)
    requires
        first == plan_model(reference_path, min_matches, ref_keypoint_count, paths, probes),
        second == plan_model(reference_path, min_matches, ref_keypoint_count, paths, probes),
    ensures
        first == second,
{
}

/// An empty candidate list yields empty aligned and skipped lists and an
/// empty trail, with no error.
pub proof fn lemma_empty_run(reference_path: Seq<char>, min_matches: nat, ref_keypoint_count: nat)
    ensures
        plan_model(
            reference_path,
            min_matches,
            ref_keypoint_count,
            Seq::empty(),
            Seq::empty(),
        ).entries.len() == 0,
        plan_model(
            reference_path,
            min_matches,
            ref_keypoint_count,
            Seq::empty(),
            Seq::empty(),
        ).skipped.len() == 0,
        plan_model(
            reference_path,
            min_matches,
            ref_keypoint_count,
            Seq::empty(),
            Seq::empty(),
        ).debug.len() == 0,
{
}

/// A candidate that decodes but yields no neighbour rows — for one, a
/// textureless frame with no detectable keypoints — is skipped, never an
/// error, whatever the configured minimum.
pub proof fn lemma_no_rows_skipped(
    path: Seq<char>,
    min_matches: nat,
    ref_keypoint_count: nat,
    keypoint_count: nat,
)
    ensures
        decide_model(
            path,
            min_matches,
            ref_keypoint_count,
            ProbeModel::Features { keypoint_count, knn_rows: Seq::empty() },
        ) is Skipped,
{
    assert(good_matches_of(Seq::<Seq<FeatureMatch>>::empty()).len() == 0);
}

} // verus!
