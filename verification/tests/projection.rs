use monstertruck::classes::{reported_range_bounds_the_curve, reported_range_bounds_the_surface, CurveClass, SurfaceKind};
use monstertruck::projection::{
    attempt_plan, chain_digest, AttemptOutcome, BoundaryProjection, BoundaryRequest, ProjectionCensus, ProjectionChain,
    SolverRequest, EXACT_FIRST,
};

/// The attempt plan's shape under the shipping opener, and the fact that it
/// is not the STEP loader's solver-grouped plan.
#[test]
fn project_domain_tests_the_attempt_plan_interleaves_the_solvers_and_is_not_the_step_twins() {
    let plan: Vec<(bool, bool)> = (0..4).map(attempt_plan).collect();

    // Hinted pair first, then the unhinted pair.
    assert_eq!(
        plan.iter().map(|&(unhinted, _)| unhinted).collect::<Vec<_>>(),
        vec![false, false, true, true],
        "attempts 0/1 are hinted and 2/3 unhinted, whatever EXACT_FIRST says",
    );
    // The solvers ALTERNATE; EXACT_FIRST only picks the opener.
    assert_eq!(
        plan.iter().map(|&(_, exact)| exact).collect::<Vec<_>>(),
        vec![EXACT_FIRST, !EXACT_FIRST, EXACT_FIRST, !EXACT_FIRST],
        "the plan alternates solvers within each pair",
    );

    // The STEP twin's plan: exact-hinted, exact-unhinted, nearest-hinted,
    // nearest-unhinted.
    let step_twin: Vec<(bool, bool)> = vec![(false, true), (true, true), (false, false), (true, false)];
    assert_ne!(
        plan, step_twin,
        "the modeling plan interleaves the solvers and the STEP twin groups \
         them, so neither value of EXACT_FIRST reproduces the twin",
    );
    assert!(!plan[1].0, "attempt 1 is still hinted here");
    assert!(step_twin[1].0, "the twin's attempt 1 is unhinted");
    assert_eq!(plan[1].1, !plan[0].1, "attempt 1 switches solver here; the twin keeps it");
}

/// Runs a chain, answering each request from `outcomes` in order; returns the
/// answer and the requests the chain made.
fn run(has_hint: bool, outcomes: Vec<AttemptOutcome<(i32, i32)>>) -> (Option<(i32, i32)>, Vec<SolverRequest>) {
    let mut chain = ProjectionChain::new(has_hint);
    let mut requests = Vec::new();
    let mut outcomes = outcomes.into_iter();
    while let Some(request) = chain.next_request() {
        requests.push(request);
        chain.observe(outcomes.next().expect("the test supplies one outcome per request"));
    }
    (chain.answer(), requests)
}

#[test]
fn the_first_answer_survives_when_no_attempt_lands_in_domain() {
    let (answer, requests) = run(
        true,
        vec![
            AttemptOutcome::OutOfDomain((7, 7)),
            AttemptOutcome::OutOfDomain((8, 8)),
            AttemptOutcome::NoAnswer,
            AttemptOutcome::OutOfDomain((9, 9)),
        ],
    );
    assert_eq!(answer, Some((7, 7)), "with no in-domain answer the first answer is preserved");
    assert_eq!(requests.len(), 4, "every attempt runs when none lands in the domain");
}

#[test]
fn a_later_in_domain_answer_replaces_an_out_of_domain_one() {
    let (answer, requests) = run(
        true,
        vec![
            AttemptOutcome::OutOfDomain((1, 1)),
            AttemptOutcome::NoAnswer,
            AttemptOutcome::InDomain((2, 2)),
        ],
    );
    assert_eq!(answer, Some((2, 2)));
    assert_eq!(requests.len(), 3, "the chain stops at the first in-domain answer");
    assert!(!requests[2].hinted, "attempt 2 runs without the hint");
}

#[test]
fn an_in_domain_first_attempt_costs_one_solve() {
    let (answer, requests) = run(true, vec![AttemptOutcome::InDomain((3, 4))]);
    assert_eq!(answer, Some((3, 4)));
    assert_eq!(requests, vec![SolverRequest { attempt: 0, hinted: true, exact: EXACT_FIRST }]);
}

#[test]
fn a_non_finite_solver_answer_is_never_returned() {
    let (answer, _) = run(
        true,
        vec![
            AttemptOutcome::NonFinite,
            AttemptOutcome::NonFinite,
            AttemptOutcome::NonFinite,
            AttemptOutcome::NonFinite,
        ],
    );
    assert_eq!(answer, None, "only non-finite answers: the projection refuses");
    let (answer, _) = run(
        true,
        vec![AttemptOutcome::NonFinite, AttemptOutcome::OutOfDomain((5, 5)), AttemptOutcome::NonFinite, AttemptOutcome::NoAnswer],
    );
    assert_eq!(answer, Some((5, 5)), "a finite answer wins over non-finite ones");
}

#[test]
fn without_a_hint_only_the_first_pair_runs_and_unhinted() {
    let (answer, requests) = run(false, vec![AttemptOutcome::NoAnswer, AttemptOutcome::NoAnswer]);
    assert_eq!(answer, None);
    assert_eq!(requests.len(), 2);
    assert!(requests.iter().all(|r| !r.hinted));
    assert_eq!(requests[0].exact, EXACT_FIRST);
    assert_eq!(requests[1].exact, !EXACT_FIRST);
}

#[test]
fn a_plane_whose_reported_square_is_not_a_real_bound_is_unaffected() {
    assert_eq!(reported_range_bounds_the_surface(SurfaceKind::Plane), (false, false));
}

#[test]
fn a_loaded_cylinders_axial_axis_is_not_a_bound_but_its_angular_axis_is() {
    // A loaded cylinder's processor is reversed: the periodic turn is `u`.
    let cylinder = SurfaceKind::RevolutionSurface { profile: CurveClass::Line, orientation: false };
    assert_eq!(reported_range_bounds_the_surface(cylinder), (true, false));
    let upright = SurfaceKind::RevolutionSurface { profile: CurveClass::Line, orientation: true };
    assert_eq!(reported_range_bounds_the_surface(upright), (false, true));
    let swept_spline = SurfaceKind::RevolutionSurface { profile: CurveClass::BsplineCurve, orientation: true };
    assert_eq!(reported_range_bounds_the_surface(swept_spline), (true, true));
}

#[test]
fn a_knot_bounded_surface_keeps_its_domain() {
    assert_eq!(reported_range_bounds_the_surface(SurfaceKind::NurbsSurface), (true, true));
    assert_eq!(reported_range_bounds_the_surface(SurfaceKind::BsplineSurface), (true, true));
    assert_eq!(reported_range_bounds_the_surface(SurfaceKind::SphericalSurface), (true, true));
    assert!(!reported_range_bounds_the_curve(CurveClass::Line));
    assert!(reported_range_bounds_the_curve(CurveClass::NurbsCurve));
}

fn census_of(has_hint: bool, runs: Vec<Vec<AttemptOutcome<(i32, i32)>>>) -> ProjectionCensus {
    let mut census = ProjectionCensus::new();
    for outcomes in runs {
        let mut chain = ProjectionChain::new(has_hint);
        let mut outcomes = outcomes.into_iter();
        while chain.next_request().is_some() {
            chain.observe(outcomes.next().expect("an outcome for every request"));
        }
        chain.record(&mut census);
    }
    census
}

#[test]
fn the_census_tallies_each_chain_once() {
    let census = census_of(
        true,
        vec![
            // Accepted at attempt 0.
            vec![AttemptOutcome::InDomain((1, 1))],
            // Out of domain, then rescued at attempt 2.
            vec![
                AttemptOutcome::OutOfDomain((9, 9)),
                AttemptOutcome::NonFinite,
                AttemptOutcome::InDomain((2, 2)),
            ],
            // Nothing lands: falls back.
            vec![
                AttemptOutcome::NoAnswer,
                AttemptOutcome::OutOfDomain((3, 3)),
                AttemptOutcome::NonFinite,
                AttemptOutcome::NoAnswer,
            ],
            // No answer at all.
            vec![
                AttemptOutcome::NoAnswer,
                AttemptOutcome::NoAnswer,
                AttemptOutcome::NoAnswer,
                AttemptOutcome::NoAnswer,
            ],
        ],
    );
    assert_eq!(census.in_domain, [1, 0, 1, 0]);
    assert_eq!(census.rejected, 1);
    assert_eq!(census.fallback, 1);
    assert_eq!(census.none, 1);
    assert_eq!(census.solves, 1 + 3 + 4 + 4);
    assert_eq!(census.non_finite, 2);
}

#[test]
fn the_census_of_unhinted_chains_counts_two_solves() {
    let census = census_of(false, vec![vec![AttemptOutcome::NonFinite, AttemptOutcome::NonFinite]]);
    assert_eq!(census.solves, 2);
    assert_eq!(census.non_finite, 2);
    assert_eq!(census.none, 1);
    assert_eq!(census.in_domain, [0, 0, 0, 0]);
}

#[test]
fn chain_digests_are_fnv1a_over_the_coordinate_bits() {
    assert_eq!(chain_digest(&[]), 0xcbf2_9ce4_8422_2325);
    assert_eq!(chain_digest(&[0]), 0xaf63_bd4c_8601_b7df);
    assert_eq!(chain_digest(&[1, 2, 3]), 0xd0aa_6218_672c_f5ab);
    let uv: Vec<u64> = [0.5f64, 0.25].iter().map(|c| c.to_bits()).collect();
    assert_eq!(chain_digest(&uv), 0x2942_8807_b4eb_6fed);
    assert_ne!(chain_digest(&[1, 2]), chain_digest(&[2, 1]));
}

/// Runs the boundary sampler over `count` points, answering each request
/// with `answer(index, hint)`; returns the boundary and the requests made.
fn sample_boundary(
    count: usize,
    answer: impl Fn(usize, Option<i32>) -> Option<i32>,
) -> (Option<Vec<i32>>, Vec<BoundaryRequest<i32>>) {
    let mut sampler = BoundaryProjection::new(count);
    let mut requests = Vec::new();
    while let Some(request) = sampler.next_request() {
        requests.push(request);
        sampler.observe(answer(request.index, request.hint));
    }
    (sampler.boundary(), requests)
}

#[test]
fn each_point_is_hinted_with_the_previous_answer() {
    let (boundary, requests) = sample_boundary(3, |index, hint| Some(hint.unwrap_or(0) + 10 * (index as i32 + 1)));
    assert_eq!(boundary, Some(vec![10, 30, 60]));
    assert_eq!(
        requests,
        vec![
            BoundaryRequest { index: 0, hint: None },
            BoundaryRequest { index: 1, hint: Some(10) },
            BoundaryRequest { index: 2, hint: Some(30) },
        ]
    );
}

#[test]
fn a_failed_hinted_pass_is_rerun_without_hints() {
    // The hinted projection of point 1 fails; unhinted every point answers.
    let (boundary, requests) =
        sample_boundary(3, |index, hint| if index == 1 && hint.is_some() { None } else { Some(index as i32) });
    assert_eq!(boundary, Some(vec![0, 1, 2]));
    assert_eq!(
        requests,
        vec![
            BoundaryRequest { index: 0, hint: None },
            BoundaryRequest { index: 1, hint: Some(0) },
            BoundaryRequest { index: 0, hint: None },
            BoundaryRequest { index: 1, hint: None },
            BoundaryRequest { index: 2, hint: None },
        ]
    );
}

#[test]
fn a_point_without_any_answer_refuses_the_boundary() {
    let (boundary, requests) = sample_boundary(3, |index, _| if index == 2 { None } else { Some(7) });
    assert_eq!(boundary, None);
    assert_eq!(requests.len(), 6);
    let (empty, none_asked) = sample_boundary(0, |_, _| Some(1));
    assert_eq!(empty, Some(vec![]));
    assert!(none_asked.is_empty());
}

/// The same plan, pinned a second time as the geometry module pins it.
#[test]
fn geometry_the_attempt_plan_interleaves_the_solvers_and_is_not_the_step_twins() {
    let plan: Vec<(bool, bool)> = (0..4).map(attempt_plan).collect();

    // Hinted pair first, then the unhinted pair.
    assert_eq!(
        plan.iter().map(|&(unhinted, _)| unhinted).collect::<Vec<_>>(),
        vec![false, false, true, true],
        "attempts 0/1 are hinted and 2/3 unhinted, whatever EXACT_FIRST says",
    );
    // The solvers alternate; EXACT_FIRST only picks the opener.
    assert_eq!(
        plan.iter().map(|&(_, exact)| exact).collect::<Vec<_>>(),
        vec![EXACT_FIRST, !EXACT_FIRST, EXACT_FIRST, !EXACT_FIRST],
        "the plan alternates solvers within each pair",
    );

    // The STEP loader's plan: exact-hinted, exact-unhinted, nearest-hinted,
    // nearest-unhinted.
    let step_twin: Vec<(bool, bool)> = vec![(false, true), (true, true), (false, false), (true, false)];
    assert_ne!(
        plan, step_twin,
        "the modeling plan interleaves the solvers and the STEP twin groups \
         them, so neither value of EXACT_FIRST reproduces the twin",
    );
    // Attempt 1 is where they part: the twin re-asks the same solver without
    // a hint; this projector asks the other solver with it.
    assert!(!plan[1].0, "attempt 1 is still hinted here");
    assert!(step_twin[1].0, "the twin's attempt 1 is unhinted");
    assert_eq!(plan[1].1, !plan[0].1, "attempt 1 switches solver here; the twin keeps it");
}
