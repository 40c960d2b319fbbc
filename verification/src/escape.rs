//! Control of the escape-time recurrence `z <- z*z + c`.
//!
//! The caller iterates the recurrence and reports, after every step, whether
//! the orbit lies outside the escape radius. The tracker decides from these
//! observations alone when the iteration stops: escape is declared on the
//! first over-threshold step that follows `POST_ESCAPE_ITERATIONS + 1` earlier
//! over-threshold steps, and a point that has not escaped after `MAX_ITERS`
//! steps is classified as inside the set.

use vstd::prelude::*;

verus! {

/// Number of recurrence steps after which a point counts as non-escaping.
pub const MAX_ITERS: usize = 250;

/// Number of over-threshold steps, beyond the first, that the orbit is let
/// run before escape is declared.
pub const POST_ESCAPE_ITERATIONS: usize = 2;

/// Classification of an orbit from the observations made so far.
pub enum Verdict {
    /// Neither escaped nor out of iterations: the recurrence goes on.
    Pending,
    /// Escape was declared at this 0-based iteration index.
    Escaped(nat),
    /// `MAX_ITERS` steps went by without a declared escape.
    Inside,
}

/// Number of over-threshold observations among the first `n` of `history`.
pub open spec fn exceed_count(history: Seq<bool>, n: int) -> nat
    decreases n,
{
    if n <= 0 {
        0
    } else {
        exceed_count(history, n - 1) + if history[n - 1] { 1nat } else { 0nat }
    }
}

/// Escape is declared at step `i`: the orbit is over the threshold there, the
/// grace steps before it are used up, and the iteration budget is not.
pub open spec fn escapes_at(history: Seq<bool>, i: int) -> bool {
    &&& 0 <= i < history.len()
    &&& i < MAX_ITERS
    &&& history[i]
    &&& exceed_count(history, i) == POST_ESCAPE_ITERATIONS + 1
}

/// The classification that a sequence of observations leads to.
pub open spec fn verdict(history: Seq<bool>) -> Verdict {
    if exists|i: int| escapes_at(history, i) {
        Verdict::Escaped((choose|i: int| escapes_at(history, i)) as nat)
    } else if history.len() >= MAX_ITERS {
        Verdict::Inside
    } else {
        Verdict::Pending
    }
}

/// Number of observations of `history` that fall within the iteration budget.
pub open spec fn budgeted(history: Seq<bool>) -> int {
    if history.len() <= MAX_ITERS {
        history.len() as int
    } else {
        MAX_ITERS as int
    }
}

/// The recurrence control of one orbit, between two steps.
///
/// Its view is the sequence of observations made so far, oldest first. A
/// tracker exists only while the orbit is undecided: the step that decides
/// it consumes the tracker.
pub struct EscapeTracker {
    /// Index of the step that is observed next.
    iteration: usize,
    /// Over-threshold steps seen so far.
    post_iters: usize,
    seen: Ghost<Seq<bool>>,
}

/// What one observation leads to.
pub enum Progress {
    /// The orbit is still undecided: iterate once more and report to this tracker.
    Running(EscapeTracker),
    /// Escape is declared at this 0-based iteration index.
    Escaped(usize),
    /// The iteration budget is used up: the point counts as inside the set.
    Inside,
}

impl Progress {
    /// The classification that this outcome stands for.
    pub open spec fn verdict(self) -> Verdict {
        match self {
            Progress::Running(_) => Verdict::Pending,
            Progress::Escaped(i) => Verdict::Escaped(i as nat),
            Progress::Inside => Verdict::Inside,
        }
    }
}

impl View for EscapeTracker {
    type V = Seq<bool>;

    closed spec fn view(&self) -> Seq<bool> {
        self.seen@
    }
}

impl EscapeTracker {
    #[verifier::type_invariant]
    spec fn inv(self) -> bool {
        &&& self.seen@.len() == self.iteration
        &&& self.iteration < MAX_ITERS
        &&& self.post_iters == exceed_count(self.seen@, self.iteration as int)
        &&& self.post_iters <= POST_ESCAPE_ITERATIONS + 1
    }

    /// The tracker of an orbit of which nothing has been observed yet.
    pub fn new() -> (tracker: Self)
        ensures
            tracker@ == Seq::<bool>::empty(),
            verdict(tracker@) is Pending,
    {
        let tracker = EscapeTracker { iteration: 0, post_iters: 0, seen: Ghost(Seq::empty()) };
        proof {
            assert forall|j: int| !escapes_at(tracker@, j) by {}
        }
        tracker
    }

    /// Takes in the observation of the next step: `exceeds` says whether the
    /// orbit lies outside the escape radius after it.
    pub fn advance(self, exceeds: bool) -> (progress: Progress)
        ensures
            verdict(self@) is Pending,
            progress.verdict() == verdict(self@.push(exceeds)),
            progress matches Progress::Running(next) ==> next@ == self@.push(exceeds),
    {
        let ghost before = self.seen@;
        let ghost after = before.push(exceeds);
        proof {
            use_type_invariant(&self);
            assert(after =~= before + seq![exceeds]);
            lemma_count_ignores_later(before, seq![exceeds], before.len() as int);
            assert forall|j: int| !escapes_at(before, j) by {
                lemma_within_grace(before, before.len() as int, j);
            }
        }
        if exceeds && self.post_iters > POST_ESCAPE_ITERATIONS {
            proof {
                lemma_verdict_escaped(after, self.iteration as int);
            }
            Progress::Escaped(self.iteration)
        } else {
            proof {
                assert forall|j: int| !escapes_at(after, j) by {
                    lemma_within_grace(after, after.len() as int, j);
                }
            }
            if self.iteration + 1 >= MAX_ITERS {
                Progress::Inside
            } else {
                let post_iters: usize = if exceeds {
                    self.post_iters + 1
                } else {
                    self.post_iters
                };
                Progress::Running(
                    EscapeTracker { iteration: self.iteration + 1, post_iters, seen: Ghost(after) },
                )
            }
        }
    }
}

proof fn lemma_count_ignores_later(history: Seq<bool>, more: Seq<bool>, n: int)
    requires
        n <= history.len(),
    ensures
        exceed_count(history + more, n) == exceed_count(history, n),
    decreases n,
{
    if n > 0 {
        lemma_count_ignores_later(history, more, n - 1);
    }
}

proof fn lemma_count_monotone(history: Seq<bool>, m: int, n: int)
    requires
        m <= n,
    ensures
        exceed_count(history, m) <= exceed_count(history, n),
    decreases n,
{
    if m < n && n > 0 {
        lemma_count_monotone(history, m, n - 1);
    }
}

/// At most one step of a history declares the escape.
pub proof fn lemma_escape_unique(history: Seq<bool>, i: int, j: int)
    requires
        escapes_at(history, i),
        escapes_at(history, j),
    ensures
        i == j,
{
    if i < j {
        lemma_count_monotone(history, i + 1, j);
    } else if j < i {
        lemma_count_monotone(history, j + 1, i);
    }
}

/// The verdict of a history with a declared escape is that escape.
pub proof fn lemma_verdict_escaped(history: Seq<bool>, i: int)
    requires
        escapes_at(history, i),
    ensures
        verdict(history) == Verdict::Escaped(i as nat),
{
    let j = choose|j: int| escapes_at(history, j);
    lemma_escape_unique(history, i, j);
}

/// No step before `n` declares an escape while the grace steps last.
proof fn lemma_within_grace(history: Seq<bool>, n: int, j: int)
    requires
        budgeted(history) <= n <= history.len(),
        exceed_count(history, n) <= POST_ESCAPE_ITERATIONS + 1,
    ensures
        !escapes_at(history, j),
{
    if escapes_at(history, j) {
        lemma_count_monotone(history, j + 1, n);
    }
}

/// Once the grace steps are used up within the first `n` observations, one
/// of these declares the escape.
proof fn lemma_beyond_grace(history: Seq<bool>, n: int) -> (i: int)
    requires
        0 <= n <= budgeted(history),
        exceed_count(history, n) > POST_ESCAPE_ITERATIONS + 1,
    ensures
        escapes_at(history, i),
        i < n,
    decreases n,
{
    if exceed_count(history, n - 1) > POST_ESCAPE_ITERATIONS + 1 {
        lemma_beyond_grace(history, n - 1)
    } else {
        n - 1
    }
}

/// The verdict by counting. An orbit has escaped exactly when more than
/// `POST_ESCAPE_ITERATIONS + 1` of its budgeted observations are over the
/// threshold; otherwise it is inside once the budget is used up, and pending
/// before.
pub proof fn lemma_verdict_by_count(history: Seq<bool>)
    ensures
        verdict(history) is Escaped <==> exceed_count(history, budgeted(history))
            > POST_ESCAPE_ITERATIONS + 1,
        verdict(history) is Inside <==> history.len() >= MAX_ITERS && exceed_count(
            history,
            budgeted(history),
        ) <= POST_ESCAPE_ITERATIONS + 1,
        verdict(history) is Pending <==> history.len() < MAX_ITERS && exceed_count(
            history,
            budgeted(history),
        ) <= POST_ESCAPE_ITERATIONS + 1,
        verdict(history) matches Verdict::Escaped(i) ==> escapes_at(history, i as int),
{
    let n = budgeted(history);
    if exceed_count(history, n) > POST_ESCAPE_ITERATIONS + 1 {
        let i = lemma_beyond_grace(history, n);
        lemma_verdict_escaped(history, i);
    } else {
        assert forall|j: int| !escapes_at(history, j) by {
            lemma_within_grace(history, n, j);
        }
    }
}

/// The index of a declared escape lies past the grace steps and within both
/// the history and the iteration budget.
pub proof fn lemma_escape_index_bounds(history: Seq<bool>, i: nat)
    requires
        verdict(history) == Verdict::Escaped(i),
    ensures
        POST_ESCAPE_ITERATIONS + 1 <= i < budgeted(history),
{
    lemma_verdict_by_count(history);
    lemma_count_at_most(history, i as int);
}

proof fn lemma_count_at_most(history: Seq<bool>, n: int)
    requires
        0 <= n,
    ensures
        exceed_count(history, n) <= n,
    decreases n,
{
    if n > 0 {
        lemma_count_at_most(history, n - 1);
    }
}

/// A verdict, once reached, is final: later observations do not change it.
pub proof fn lemma_verdict_is_final(history: Seq<bool>, more: Seq<bool>)
    requires
        !(verdict(history) is Pending),
    ensures
        verdict(history + more) == verdict(history),
{
    let longer = history + more;
    lemma_verdict_by_count(history);
    lemma_count_ignores_later(history, more, budgeted(history));
    match verdict(history) {
        Verdict::Escaped(i) => {
            lemma_count_ignores_later(history, more, i as int);
            lemma_verdict_escaped(longer, i as int);
        },
        _ => {
            lemma_verdict_by_count(longer);
        },
    }
}

/// An orbit that is never observed over the threshold is classified as
/// inside the set when the iteration budget is used up.
pub proof fn lemma_quiet_orbit_is_inside(history: Seq<bool>)
    requires
        history.len() >= MAX_ITERS,
        forall|i: int| 0 <= i < MAX_ITERS ==> !history[i],
    ensures
        verdict(history) == Verdict::Inside,
{
    lemma_count_of_quiet(history, MAX_ITERS as int);
    lemma_verdict_by_count(history);
}

proof fn lemma_count_of_quiet(history: Seq<bool>, n: int)
    requires
        forall|i: int| 0 <= i < n ==> !history[i],
    ensures
        exceed_count(history, n) == 0,
    decreases n,
{
    if n > 0 {
        lemma_count_of_quiet(history, n - 1);
    }
}

/// An orbit that is over the threshold from its first step on escapes as
/// early as the grace steps allow: at index `POST_ESCAPE_ITERATIONS + 1`.
pub proof fn lemma_runaway_orbit_escapes(history: Seq<bool>)
    requires
        history.len() > POST_ESCAPE_ITERATIONS + 1,
        forall|i: int| 0 <= i <= POST_ESCAPE_ITERATIONS + 1 ==> history[i],
    ensures
        verdict(history) == Verdict::Escaped((POST_ESCAPE_ITERATIONS + 1) as nat),
{
    lemma_count_of_runaway(history, POST_ESCAPE_ITERATIONS + 1);
    lemma_verdict_escaped(history, POST_ESCAPE_ITERATIONS + 1);
}

proof fn lemma_count_of_runaway(history: Seq<bool>, n: int)
    requires
        0 <= n,
        forall|i: int| 0 <= i < n ==> history[i],
    ensures
        exceed_count(history, n) == n,
    decreases n,
{
    if n > 0 {
        lemma_count_of_runaway(history, n - 1);
    }
}

} // verus!
