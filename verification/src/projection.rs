//! Projecting a point onto a surface inside the surface's own parameter
//! domain: which solver each attempt uses, and which answer the chain keeps;
//! projecting the sample points of a trim curve, hinted then unhinted; and
//! the tallies and digest the projection lens reports.

use vstd::prelude::*;

verus! {

/// Whether the projector asks the exact solver first. Only the opener of each
/// hinted/unhinted pair depends on it.
pub const EXACT_FIRST: bool = false;

/// The plan of attempt `attempt`, as `(unhinted, exact)`.
pub open spec fn plan_of(attempt: int) -> (bool, bool) {
    (attempt >= 2, (attempt % 2 == 0) == EXACT_FIRST)
}

/// What attempt `attempt` of the projection chain does, as `(unhinted, exact)`.
///
/// Attempts 0 and 1 are the hinted pair, 2 and 3 the unhinted pair, and the
/// two solvers alternate within each pair; [`EXACT_FIRST`] picks the opener.
pub fn attempt_plan(attempt: usize) -> (plan: (bool, bool))
    ensures
        plan == plan_of(attempt as int),
{
    (attempt >= 2, (attempt % 2 == 0) == EXACT_FIRST)
}


/// What one solver attempt produced, as classified by the caller that ran the
/// solver: no answer, an answer with a non-finite coordinate, or a finite
/// answer that lies inside or outside the surface's parameter domain.
pub enum AttemptOutcome<T> {
    NoAnswer,
    NonFinite,
    InDomain(T),
    OutOfDomain(T),
}

/// The solver call the chain asks for next.
#[derive(Clone, Copy, Debug, PartialEq, Eq)]
pub struct SolverRequest {
    /// Index of the attempt in the plan, `0..4`.
    pub attempt: usize,
    /// Whether the caller's hint is handed to the solver.
    pub hinted: bool,
    /// `true` for the exact (point-reproducing) solver, `false` for the
    /// nearest-point solver.
    pub exact: bool,
}

/// The first in-domain answer of a run of attempts.
pub open spec fn first_in_domain<T>(outcomes: Seq<AttemptOutcome<T>>) -> Option<T>
    decreases outcomes.len(),
{
    if outcomes.len() == 0 {
        None
    } else {
        match outcomes[0] {
            AttemptOutcome::InDomain(answer) => Some(answer),
            _ => first_in_domain(outcomes.drop_first()),
        }
    }
}

/// The first finite but out-of-domain answer of a run of attempts.
pub open spec fn first_out_of_domain<T>(outcomes: Seq<AttemptOutcome<T>>) -> Option<T>
    decreases outcomes.len(),
{
    if outcomes.len() == 0 {
        None
    } else {
        match outcomes[0] {
            AttemptOutcome::OutOfDomain(answer) => Some(answer),
            _ => first_out_of_domain(outcomes.drop_first()),
        }
    }
}

/// What the chain answers after the attempts `outcomes`: the first in-domain
/// answer, and failing that the first finite answer, which is then out of
/// domain.
pub open spec fn chain_answer<T>(outcomes: Seq<AttemptOutcome<T>>) -> Option<T> {
    match first_in_domain(outcomes) {
        Some(answer) => Some(answer),
        None => first_out_of_domain(outcomes),
    }
}

/// How many attempts the plan holds: all four with a hint, only the first
/// (hinted) pair without one, since without a hint that pair already ran
/// unhinted.
pub open spec fn plan_length(has_hint: bool) -> nat {
    if has_hint { 4 } else { 2 }
}

/// The request of attempt `attempt`, following [`attempt_plan`].
pub open spec fn request_of(attempt: usize, has_hint: bool) -> SolverRequest {
    SolverRequest {
        attempt,
        hinted: has_hint && !(attempt >= 2),
        exact: plan_of(attempt as int).1,
    }
}

/// Whether some outcome of the run is an in-domain answer.
pub open spec fn has_in_domain<T>(outcomes: Seq<AttemptOutcome<T>>) -> bool {
    exists|i: int| 0 <= i < outcomes.len() && outcomes[i] is InDomain
}

/// How many attempts of the run answered with a non-finite coordinate.
pub open spec fn count_non_finite<T>(outcomes: Seq<AttemptOutcome<T>>) -> nat
    decreases outcomes.len(),
{
    if outcomes.len() == 0 {
        0
    } else {
        count_non_finite(outcomes.drop_last()) + if outcomes.last() is NonFinite {
            1nat
        } else {
            0nat
        }
    }
}

/// Tallies of finished projection chains, for the projection lens: the
/// in-domain acceptances by attempt, the out-of-domain answers a later
/// attempt rescued, the chains that fell back to an out-of-domain answer,
/// those with no answer at all, the solver calls, and the non-finite answers
/// discarded.
#[derive(Clone, Copy, Debug, PartialEq, Eq)]
pub struct ProjectionCensus {
    pub in_domain: [usize; 4],
    pub rejected: usize,
    pub fallback: usize,
    pub none: usize,
    pub solves: usize,
    pub non_finite: usize,
}

impl ProjectionCensus {
    /// Every tally at zero.
    pub fn new() -> (census: Self)
        ensures
            census.in_domain@ == seq![0usize, 0, 0, 0],
            census.rejected == 0 && census.fallback == 0 && census.none == 0,
            census.solves == 0 && census.non_finite == 0,
    {
        let census = ProjectionCensus {
            in_domain: [0usize, 0, 0, 0],
            rejected: 0,
            fallback: 0,
            none: 0,
            solves: 0,
            non_finite: 0,
        };
        assert(census.in_domain@ =~= seq![0usize, 0, 0, 0]);
        census
    }

    /// Room for one more chain in every tally.
    pub open spec fn has_room(self) -> bool {
        &&& forall|k: int| 0 <= k < 4 ==> #[trigger] self.in_domain@[k] < usize::MAX
        &&& self.rejected < usize::MAX && self.fallback < usize::MAX && self.none < usize::MAX
        &&& self.solves <= usize::MAX - 4 && self.non_finite <= usize::MAX - 4
    }
}

/// The decision half of projecting a point onto a surface inside its domain.
///
/// The caller runs each requested solver, classifies the answer as an
/// [`AttemptOutcome`], and feeds it back with [`ProjectionChain::observe`]
/// until [`ProjectionChain::next_request`] answers `None`; then
/// [`ProjectionChain::answer`] is the projection.
pub struct ProjectionChain<T> {
    has_hint: bool,
    attempts: usize,
    non_finite: usize,
    accepted: Option<T>,
    fallback: Option<T>,
    observed: Ghost<Seq<AttemptOutcome<T>>>,
}

impl<T> ProjectionChain<T> {
    /// The attempts observed so far, in order.
    pub closed spec fn outcomes(self) -> Seq<AttemptOutcome<T>> {
        self.observed@
    }

    /// Whether the caller holds a hint for this point.
    pub closed spec fn hinted(self) -> bool {
        self.has_hint
    }

    /// The chain is over: an attempt landed in the domain, or the plan ran out.
    pub open spec fn is_done(self) -> bool {
        has_in_domain(self.outcomes()) || self.outcomes().len() >= plan_length(self.hinted())
    }

    /// The chain's internal state agrees with the attempts it observed.
    pub closed spec fn wf(self) -> bool {
        &&& self.attempts == self.observed@.len()
        &&& self.non_finite == count_non_finite(self.observed@)
        &&& self.observed@.len() <= plan_length(self.has_hint)
        &&& self.accepted == first_in_domain(self.observed@)
        &&& self.fallback == first_out_of_domain(self.observed@)
        &&& forall|i: int|
            0 <= i < self.observed@.len() - 1 ==> !(#[trigger] self.observed@[i] is InDomain)
    }

    /// A fresh chain for one point; `has_hint` says whether the caller holds a
    /// hint (the previous point's answer) for it.
    pub fn new(has_hint: bool) -> (chain: Self)
        ensures
            chain.wf(),
            chain.hinted() == has_hint,
            chain.outcomes() == Seq::<AttemptOutcome<T>>::empty(),
    {
        ProjectionChain {
            has_hint,
            attempts: 0,
            non_finite: 0,
            accepted: None,
            fallback: None,
            observed: Ghost(Seq::empty()),
        }
    }

    /// The solver call to run next, or `None` once the chain is over.
    pub fn next_request(&self) -> (request: Option<SolverRequest>)
        requires
            self.wf(),
        ensures
            request is None <==> self.is_done(),
            request matches Some(r) ==> r == request_of(
                self.outcomes().len() as usize,
                self.hinted(),
            ),
    {
        if self.accepted.is_some() {
            proof {
                lemma_first_in_domain_found(self.observed@);
            }
            return None;
        }
        proof {
            lemma_first_in_domain_none(self.observed@);
        }
        let limit: usize = if self.has_hint { 4 } else { 2 };
        if self.attempts >= limit {
            return None;
        }
        let (unhinted, exact) = attempt_plan(self.attempts);
        Some(SolverRequest { attempt: self.attempts, hinted: self.has_hint && !unhinted, exact })
    }

    /// Records what the requested attempt produced.
    pub fn observe(&mut self, outcome: AttemptOutcome<T>)
        requires
            old(self).wf(),
            !old(self).is_done(),
        ensures
            final(self).wf(),
            final(self).hinted() == old(self).hinted(),
            final(self).outcomes() == old(self).outcomes().push(outcome),
    {
        proof {
            if self.accepted.is_some() {
                lemma_first_in_domain_found(self.observed@);
            }
            lemma_first_in_domain_none(self.observed@);
            lemma_firsts_push(self.observed@, outcome);
        }
        let ghost pushed = self.observed@.push(outcome);
        match outcome {
            AttemptOutcome::InDomain(answer) => {
                self.accepted = Some(answer);
            },
            AttemptOutcome::OutOfDomain(answer) => {
                if self.fallback.is_none() {
                    self.fallback = Some(answer);
                }
            },
            AttemptOutcome::NonFinite => {
                proof {
                    lemma_non_finite_bound(old(self).observed@);
                }
                self.non_finite = self.non_finite + 1;
            },
            AttemptOutcome::NoAnswer => {},
        }
        self.attempts = self.attempts + 1;
        assert(pushed.drop_last() =~= old(self).observed@);
        self.observed = Ghost(pushed);
        proof {
            assert forall|i: int| 0 <= i < pushed.len() - 1 implies !(#[trigger] pushed[i] is InDomain) by {
                assert(pushed[i] == old(self).observed@[i]);
                if pushed[i] is InDomain {
                    lemma_first_in_domain_none(old(self).observed@);
                }
            }
        }
    }

    /// The projection: the first in-domain answer, else the first finite
    /// answer, else `None`.
    pub fn answer(self) -> (answer: Option<T>)
        requires
            self.wf(),
        ensures
            answer == chain_answer(self.outcomes()),
    {
        match self.accepted {
            Some(answer) => Some(answer),
            None => self.fallback,
        }
    }
}

impl<T> ProjectionChain<T> {
    /// Adds this finished chain to `census`: one solve per attempt, each
    /// non-finite answer, and either the attempt that landed in the domain
    /// (with a rescue when an out-of-domain answer came before it), or a
    /// fallback to an out-of-domain answer, or no answer.
    pub fn record(&self, census: &mut ProjectionCensus)
        requires
            self.wf(),
            self.is_done(),
            old(census).has_room(),
        ensures
            final(census).solves == old(census).solves + self.outcomes().len(),
            final(census).non_finite == old(census).non_finite + count_non_finite(self.outcomes()),
            forall|k: int| 0 <= k < 4 ==> #[trigger] final(census).in_domain@[k] == old(census).in_domain@[k]
                + if has_in_domain(self.outcomes()) && k == self.outcomes().len() - 1 { 1int } else { 0int },
            final(census).rejected == old(census).rejected + if has_in_domain(self.outcomes())
                && first_out_of_domain(self.outcomes()) is Some { 1int } else { 0int },
            final(census).fallback == old(census).fallback + if !has_in_domain(self.outcomes())
                && first_out_of_domain(self.outcomes()) is Some { 1int } else { 0int },
            final(census).none == old(census).none + if !has_in_domain(self.outcomes())
                && first_out_of_domain(self.outcomes()) is None { 1int } else { 0int },
    {
        proof {
            lemma_non_finite_bound(self.observed@);
            lemma_first_in_domain_none(self.observed@);
            if self.accepted.is_some() {
                lemma_first_in_domain_found(self.observed@);
            }
            if has_in_domain(self.observed@) {
                let i = choose|i: int| 0 <= i < self.observed@.len() && self.observed@[i] is InDomain;
                assert(i == self.observed@.len() - 1);
            }
        }
        census.solves = census.solves + self.attempts;
        census.non_finite = census.non_finite + self.non_finite;
        if self.accepted.is_some() {
            let k = self.attempts - 1;
            census.in_domain[k] = census.in_domain[k] + 1;
            if self.fallback.is_some() {
                census.rejected = census.rejected + 1;
            }
        } else if self.fallback.is_some() {
            census.fallback = census.fallback + 1;
        } else {
            census.none = census.none + 1;
        }
    }
}

/// One projection the boundary sampler asks for: the sample point's index
/// and the hint handed to the projection.
#[derive(Clone, Copy, Debug, PartialEq, Eq)]
pub struct BoundaryRequest<T> {
    pub index: usize,
    pub hint: Option<T>,
}

/// Every entry is an answer.
pub open spec fn all_answered<T>(answers: Seq<Option<T>>) -> bool {
    forall|i: int| 0 <= i < answers.len() ==> #[trigger] answers[i] is Some
}

/// The answers themselves.
pub open spec fn answers_of<T>(answers: Seq<Option<T>>) -> Seq<T> {
    answers.map_values(|answer: Option<T>| answer.unwrap())
}

/// The parameter boundary of `count` sample points, from the projections of
/// the hinted pass (`first`) and of the unhinted pass (`second`): the hinted
/// pass when every point answered, else the unhinted pass when every point
/// answered there, else none.
pub open spec fn boundary_of<T>(count: nat, first: Seq<Option<T>>, second: Seq<Option<T>>) -> Option<Seq<T>> {
    if first.len() == count && all_answered(first) {
        Some(answers_of(first))
    } else if second.len() == count && all_answered(second) {
        Some(answers_of(second))
    } else {
        None
    }
}

/// Projecting the sample points of a trim curve onto a surface, in two
/// passes: first each point is projected with the previous point's answer as
/// its hint; when some point gets no answer, every point is projected again
/// without a hint. The boundary is the first pass in which every point
/// answered.
///
/// The caller runs each requested projection and reports its answer with
/// [`BoundaryProjection::observe`] until [`BoundaryProjection::next_request`]
/// answers `None`; then [`BoundaryProjection::boundary`] is the result.
pub struct BoundaryProjection<T> {
    count: usize,
    hinted: bool,
    refused: bool,
    answers: Vec<T>,
    first: Ghost<Seq<Option<T>>>,
    second: Ghost<Seq<Option<T>>>,
}

impl<T: Copy> BoundaryProjection<T> {
    /// The number of sample points.
    pub closed spec fn count(self) -> nat {
        self.count as nat
    }

    /// The answers of the hinted pass so far.
    pub closed spec fn first_pass(self) -> Seq<Option<T>> {
        self.first@
    }

    /// The answers of the unhinted pass so far.
    pub closed spec fn second_pass(self) -> Seq<Option<T>> {
        self.second@
    }

    /// Both passes are over: the hinted one answered every point, or the
    /// unhinted one answered every point or failed on one.
    pub open spec fn is_done(self) -> bool {
        ||| self.first_pass().len() == self.count() && all_answered(self.first_pass())
        ||| self.second_pass().len() == self.count() && all_answered(self.second_pass())
        ||| exists|i: int| 0 <= i < self.second_pass().len() && #[trigger] self.second_pass()[i] is None
    }

    /// The projection asked for next while not done: in the hinted pass the
    /// next point with the previous point's answer as hint, in the unhinted
    /// pass the next point with no hint.
    pub open spec fn request(self) -> BoundaryRequest<T> {
        if all_answered(self.first_pass()) {
            BoundaryRequest {
                index: self.first_pass().len() as usize,
                hint: if self.first_pass().len() == 0 { None } else { self.first_pass().last() },
            }
        } else {
            BoundaryRequest { index: self.second_pass().len() as usize, hint: None }
        }
    }

    /// The sampler's state agrees with the answers it observed.
    pub closed spec fn wf(self) -> bool {
        &&& self.first@.len() <= self.count
        &&& self.second@.len() <= self.count
        &&& self.hinted == all_answered(self.first@)
        &&& self.hinted ==> !self.refused && self.second@.len() == 0 && self.answers@ == answers_of(self.first@)
        &&& !self.hinted ==> self.first@.len() > 0 && self.first@.last() is None
            && all_answered(self.first@.drop_last())
        &&& !self.hinted ==> (self.refused <==> !all_answered(self.second@))
        &&& !self.hinted && !self.refused ==> self.answers@ == answers_of(self.second@)
        &&& !self.hinted && self.refused ==> self.second@.len() > 0 && self.second@.last() is None
            && all_answered(self.second@.drop_last())
    }

    /// A sampler for `count` sample points.
    pub fn new(count: usize) -> (sampler: Self)
        ensures
            sampler.wf(),
            sampler.count() == count,
            sampler.first_pass() == Seq::<Option<T>>::empty(),
            sampler.second_pass() == Seq::<Option<T>>::empty(),
    {
        let sampler = BoundaryProjection {
            count,
            hinted: true,
            refused: false,
            answers: Vec::new(),
            first: Ghost(Seq::empty()),
            second: Ghost(Seq::empty()),
        };
        assert(sampler.answers@ =~= answers_of(sampler.first@));
        sampler
    }

    /// The projection to run next, or `None` once both passes are over.
    pub fn next_request(&self) -> (request: Option<BoundaryRequest<T>>)
        requires
            self.wf(),
        ensures
            request is None <==> self.is_done(),
            request matches Some(r) ==> r == self.request(),
    {
        if self.hinted {
            let n = self.answers.len();
            if n == self.count {
                return None;
            }
            proof {
                if exists|i: int| 0 <= i < self.second@.len() && #[trigger] self.second@[i] is None {
                    assert(false);
                }
            }
            let hint = if n == 0 {
                None
            } else {
                assert(self.first@.last() == Some(self.answers@[n - 1]));
                Some(self.answers[n - 1])
            };
            return Some(BoundaryRequest { index: n, hint });
        }
        if self.refused {
            proof {
                assert(self.second@[self.second@.len() - 1] is None);
            }
            return None;
        }
        let n = self.answers.len();
        if n == self.count {
            return None;
        }
        proof {
            if exists|i: int| 0 <= i < self.second@.len() && #[trigger] self.second@[i] is None {
                assert(false);
            }
        }
        Some(BoundaryRequest { index: n, hint: None })
    }

    /// Records the answer of the requested projection.
    pub fn observe(&mut self, answer: Option<T>)
        requires
            old(self).wf(),
            !old(self).is_done(),
        ensures
            final(self).wf(),
            final(self).count() == old(self).count(),
            all_answered(old(self).first_pass()) ==> final(self).first_pass() == old(self).first_pass().push(answer)
                && final(self).second_pass() == old(self).second_pass(),
            !all_answered(old(self).first_pass()) ==> final(self).first_pass() == old(self).first_pass()
                && final(self).second_pass() == old(self).second_pass().push(answer),
    {
        let ghost first = self.first@;
        let ghost second = self.second@;
        if self.hinted {
            let ghost pushed = first.push(answer);
            assert(pushed.drop_last() =~= first);
            proof {
                if self.answers.len() == self.count {
                    assert(first.len() == self.count);
                }
            }
            match answer {
                Some(a) => {
                    self.answers.push(a);
                    self.first = Ghost(pushed);
                    assert(all_answered(pushed)) by {
                        assert forall|i: int| 0 <= i < pushed.len() implies #[trigger] pushed[i] is Some by {
                            if i < first.len() {
                                assert(pushed[i] == first[i]);
                            }
                        }
                    }
                    assert(self.answers@ =~= answers_of(pushed));
                },
                None => {
                    self.hinted = false;
                    self.answers = Vec::new();
                    self.first = Ghost(pushed);
                    assert(!all_answered(pushed)) by {
                        assert(pushed[pushed.len() - 1] is None);
                    }
                    assert(self.answers@ =~= answers_of(second));
                },
            }
        } else {
            let ghost pushed = second.push(answer);
            assert(pushed.drop_last() =~= second);
            proof {
                if self.answers.len() == self.count {
                    assert(second.len() == self.count);
                }
                if self.refused {
                    assert(second[second.len() - 1] is None);
                }
            }
            match answer {
                Some(a) => {
                    self.answers.push(a);
                    self.second = Ghost(pushed);
                    assert(all_answered(pushed)) by {
                        assert forall|i: int| 0 <= i < pushed.len() implies #[trigger] pushed[i] is Some by {
                            if i < second.len() {
                                assert(pushed[i] == second[i]);
                            }
                        }
                    }
                    assert(self.answers@ =~= answers_of(pushed));
                },
                None => {
                    self.refused = true;
                    self.second = Ghost(pushed);
                    assert(!all_answered(pushed)) by {
                        assert(pushed[pushed.len() - 1] is None);
                    }
                },
            }
        }
    }

    /// The parameter boundary: the answers of the first pass in which every
    /// point answered, or `None`.
    pub fn boundary(self) -> (boundary: Option<Vec<T>>)
        requires
            self.wf(),
            self.is_done(),
        ensures
            boundary matches Some(v) ==> boundary_of(self.count(), self.first_pass(), self.second_pass()) == Some(v@),
            boundary is None <==> boundary_of(self.count(), self.first_pass(), self.second_pass()) is None,
    {
        if self.hinted {
            proof {
                if self.answers.len() != self.count {
                    let i = choose|i: int| 0 <= i < self.second@.len() && #[trigger] self.second@[i] is None;
                    assert(false);
                }
            }
            return Some(self.answers);
        }
        if self.refused {
            return None;
        }
        proof {
            if self.answers.len() != self.count {
                let i = choose|i: int| 0 <= i < self.second@.len() && #[trigger] self.second@[i] is None;
                assert(false);
            }
        }
        Some(self.answers)
    }
}

/// A boundary, when there is one, holds exactly one answer per sample point,
/// and the unhinted pass is consulted only after the hinted pass met a point
/// with no answer.
pub proof fn law_boundary_has_one_answer_per_point<T>(count: nat, first: Seq<Option<T>>, second: Seq<Option<T>>)
    ensures
        boundary_of(count, first, second) matches Some(b) ==> b.len() == count,
        first.len() == count && all_answered(first) ==> boundary_of(count, first, second) == Some(answers_of(first)),
{
}

/// The offset basis of the 64-bit FNV-1a hash.
pub const FNV_OFFSET_BASIS: u64 = 0xcbf2_9ce4_8422_2325;

/// The prime of the 64-bit FNV-1a hash.
pub const FNV_PRIME: u64 = 0x0000_0100_0000_01b3;

/// The FNV-1a fold of `words`: each word is xored in, then the digest is
/// multiplied by the prime, modulo `2^64`.
pub open spec fn fnv1a_of(words: Seq<u64>) -> u64
    decreases words.len(),
{
    if words.len() == 0 {
        FNV_OFFSET_BASIS
    } else {
        ((((fnv1a_of(words.drop_last()) ^ words.last()) as nat) * (FNV_PRIME as nat))
            % 0x1_0000_0000_0000_0000) as u64
    }
}

/// The digest of a projected boundary, folded over the bit patterns of its
/// coordinates in order (`u0, v0, u1, v1, ...`): identical chains give
/// identical digests.
pub fn chain_digest(words: &[u64]) -> (digest: u64)
    ensures
        digest == fnv1a_of(words@),
{
    let mut digest: u64 = FNV_OFFSET_BASIS;
    let mut i: usize = 0;
    while i < words.len()
        invariant
            i <= words@.len(),
            digest == fnv1a_of(words@.subrange(0, i as int)),
        decreases words.len() - i,
    {
        assert(words@.subrange(0, i + 1).drop_last() =~= words@.subrange(0, i as int));
        digest = (digest ^ words[i]).wrapping_mul(FNV_PRIME);
        i = i + 1;
    }
    assert(words@.subrange(0, words@.len() as int) =~= words@);
    digest
}

proof fn lemma_non_finite_bound<T>(outcomes: Seq<AttemptOutcome<T>>)
    ensures
        count_non_finite(outcomes) <= outcomes.len(),
    decreases outcomes.len(),
{
    if outcomes.len() > 0 {
        lemma_non_finite_bound(outcomes.drop_last());
    }
}

proof fn lemma_first_in_domain_found<T>(outcomes: Seq<AttemptOutcome<T>>)
    requires
        first_in_domain(outcomes) is Some,
    ensures
        has_in_domain(outcomes),
    decreases outcomes.len(),
{
    if !(outcomes[0] is InDomain) {
        lemma_first_in_domain_found(outcomes.drop_first());
        let i = choose|i: int| 0 <= i < outcomes.drop_first().len() && outcomes.drop_first()[i] is InDomain;
        assert(outcomes[i + 1] is InDomain);
    }
}

proof fn lemma_first_in_domain_none<T>(outcomes: Seq<AttemptOutcome<T>>)
    ensures
        first_in_domain(outcomes) is None <==> !has_in_domain(outcomes),
    decreases outcomes.len(),
{
    if outcomes.len() > 0 {
        lemma_first_in_domain_none(outcomes.drop_first());
        if has_in_domain(outcomes) && !(outcomes[0] is InDomain) {
            let i = choose|i: int| 0 <= i < outcomes.len() && outcomes[i] is InDomain;
            assert(outcomes.drop_first()[i - 1] is InDomain);
        }
        if has_in_domain(outcomes.drop_first()) {
            let i = choose|i: int| 0 <= i < outcomes.drop_first().len() && outcomes.drop_first()[i] is InDomain;
            assert(outcomes[i + 1] is InDomain);
        }
    }
}

proof fn lemma_firsts_push<T>(outcomes: Seq<AttemptOutcome<T>>, outcome: AttemptOutcome<T>)
    ensures
        first_in_domain(outcomes.push(outcome)) == (match first_in_domain(outcomes) {
            Some(answer) => Some(answer),
            None => match outcome {
                AttemptOutcome::InDomain(answer) => Some(answer),
                _ => None,
            },
        }),
        first_out_of_domain(outcomes.push(outcome)) == (match first_out_of_domain(outcomes) {
            Some(answer) => Some(answer),
            None => match outcome {
                AttemptOutcome::OutOfDomain(answer) => Some(answer),
                _ => None,
            },
        }),
    decreases outcomes.len(),
{
    let pushed = outcomes.push(outcome);
    if outcomes.len() > 0 {
        assert(pushed[0] == outcomes[0]);
        assert(pushed.drop_first() =~= outcomes.drop_first().push(outcome));
        lemma_firsts_push(outcomes.drop_first(), outcome);
    } else {
        assert(pushed[0] == outcome);
        assert(pushed.drop_first() =~= Seq::<AttemptOutcome<T>>::empty());
        assert(first_in_domain(pushed.drop_first()) is None);
        assert(first_out_of_domain(pushed.drop_first()) is None);
    }
}


/// The plan runs the hinted pair before the unhinted pair, and within each
/// pair the two solvers alternate, so no choice of opener makes two
/// consecutive attempts of a pair ask the same solver.
pub proof fn law_plan_pairs_alternate_solvers(pair: int)
    requires
        0 <= pair < 2,
    ensures
        !plan_of(2 * pair).0 == (pair == 0),
        plan_of(2 * pair).0 == plan_of(2 * pair + 1).0,
        plan_of(2 * pair).1 != plan_of(2 * pair + 1).1,
        plan_of(2 * pair).1 == EXACT_FIRST,
{
}

/// An in-domain answer always wins, and it is the earliest one.
pub proof fn law_in_domain_answer_wins<T>(outcomes: Seq<AttemptOutcome<T>>)
    requires
        has_in_domain(outcomes),
    ensures
        exists|i: int|
            0 <= i < outcomes.len() && outcomes[i] is InDomain && chain_answer(outcomes) == Some(
                outcomes[i]->InDomain_0,
            ) && forall|j: int| 0 <= j < i ==> !(#[trigger] outcomes[j] is InDomain),
    decreases outcomes.len(),
{
    lemma_first_in_domain_none(outcomes);
    if outcomes[0] is InDomain {
        assert(outcomes[0] is InDomain && chain_answer(outcomes) == Some(outcomes[0]->InDomain_0));
    } else {
        let rest = outcomes.drop_first();
        let k = choose|k: int| 0 <= k < outcomes.len() && outcomes[k] is InDomain;
        assert(rest[k - 1] is InDomain);
        law_in_domain_answer_wins(rest);
        lemma_first_in_domain_none(rest);
        let i = choose|i: int|
            0 <= i < rest.len() && rest[i] is InDomain && chain_answer(rest) == Some(rest[i]->InDomain_0)
                && forall|j: int| 0 <= j < i ==> !(#[trigger] rest[j] is InDomain);
        assert(outcomes[i + 1] == rest[i]);
        assert forall|j: int| 0 <= j < i + 1 implies !(#[trigger] outcomes[j] is InDomain) by {
            if j > 0 {
                assert(outcomes[j] == rest[j - 1]);
            }
        }
    }
}

/// When no attempt lands in the domain, the first finite answer is handed
/// back unchanged: the domain test replaces an answer only by a better one.
pub proof fn law_first_answer_survives<T>(outcomes: Seq<AttemptOutcome<T>>)
    requires
        !has_in_domain(outcomes),
    ensures
        chain_answer(outcomes) == first_out_of_domain(outcomes),
{
    lemma_first_in_domain_none(outcomes);
}

/// The domain test never turns a successful projection into a refusal: if
/// any attempt produced a finite answer, the chain answers.
pub proof fn law_success_is_never_lost<T>(outcomes: Seq<AttemptOutcome<T>>, i: int)
    requires
        0 <= i < outcomes.len(),
        outcomes[i] is InDomain || outcomes[i] is OutOfDomain,
    ensures
        chain_answer(outcomes) is Some,
    decreases outcomes.len(),
{
    if first_in_domain(outcomes) is None && i > 0 {
        law_success_is_never_lost(outcomes.drop_first(), i - 1);
        lemma_first_in_domain_none(outcomes);
        lemma_first_in_domain_none(outcomes.drop_first());
        if has_in_domain(outcomes.drop_first()) {
            let k = choose|k: int| 0 <= k < outcomes.drop_first().len() && outcomes.drop_first()[k] is InDomain;
            assert(outcomes[k + 1] is InDomain);
        }
    }
}

/// Every answer the chain returns came from a solver as a finite answer: a
/// run of refusals and non-finite answers projects to nothing.
pub proof fn law_answer_came_from_a_finite_attempt<T>(outcomes: Seq<AttemptOutcome<T>>)
    ensures
        chain_answer(outcomes) matches Some(answer) ==> exists|i: int|
            0 <= i < outcomes.len() && (outcomes[i] == AttemptOutcome::InDomain(answer)
                || outcomes[i] == AttemptOutcome::OutOfDomain(answer)),
        (forall|i: int|
            0 <= i < outcomes.len() ==> (#[trigger] outcomes[i] is NoAnswer || outcomes[i] is NonFinite))
            ==> chain_answer(outcomes) is None,
    decreases outcomes.len(),
{
    if outcomes.len() > 0 {
        let rest = outcomes.drop_first();
        law_answer_came_from_a_finite_attempt(rest);
        if let Some(answer) = chain_answer(outcomes) {
            if !(outcomes[0] == AttemptOutcome::InDomain(answer) || outcomes[0] == AttemptOutcome::OutOfDomain(answer)) {
                if first_in_domain(outcomes) is None {
                    lemma_first_in_domain_none(outcomes);
                    lemma_first_in_domain_none(rest);
                    if has_in_domain(rest) {
                        let k = choose|k: int| 0 <= k < rest.len() && rest[k] is InDomain;
                        assert(outcomes[k + 1] is InDomain);
                    }
                }
                let i = choose|i: int|
                    0 <= i < rest.len() && (rest[i] == AttemptOutcome::InDomain(answer)
                        || rest[i] == AttemptOutcome::OutOfDomain(answer));
                assert(outcomes[i + 1] == rest[i]);
            }
        }
        if forall|i: int|
            0 <= i < outcomes.len() ==> (#[trigger] outcomes[i] is NoAnswer || outcomes[i] is NonFinite) {
            assert forall|i: int| 0 <= i < rest.len() implies (#[trigger] rest[i] is NoAnswer || rest[i] is NonFinite) by {
                assert(rest[i] == outcomes[i + 1]);
            }
        }
    }
}

/// A chain never asks for more solves than its plan holds: four with a hint,
/// two without; and it stops at the first in-domain answer, so a point whose
/// first attempt lands in the domain costs exactly one solve.
pub proof fn law_chain_cost<T>(chain: ProjectionChain<T>)
    requires
        chain.wf(),
    ensures
        chain.outcomes().len() <= 4,
        !chain.hinted() ==> chain.outcomes().len() <= 2,
        chain.outcomes().len() >= 1 && chain.outcomes()[0] is InDomain ==> chain.is_done()
            && chain.outcomes().len() == 1,
{
    if chain.outcomes().len() >= 2 && chain.outcomes()[0] is InDomain {
        assert(!(chain.observed@[0] is InDomain));
    }
}

} // verus!
