//! Debounced rebuild decision for viewport-size changes.
//!
//! The render graph is rebuilt only when the polled dimensions have changed
//! *and* stabilized: the first observation of a new reading records it and
//! answers "not yet"; only a second consecutive observation of the same
//! reading, still different from the dimensions the current graph was built
//! for, answers "rebuild".  A transient reading that reverts before the next
//! check therefore never causes a rebuild.

use vstd::prelude::*;

use crate::dims::ScreenDims;
use crate::dims::dims_opt_eq;

verus! {

/// The rebuild state machine: `built` holds the dimensions the current graph
/// was built for (`None` before the first build), `observed` the most recent
/// polled reading.
#[derive(Clone, Copy, Debug, PartialEq, Eq, Structural)]
pub struct DimTracker {
    pub built: Option<ScreenDims>,
    pub observed: Option<ScreenDims>,
}

/// The phase the tracker is in, as seen by the orchestrating loop.
#[derive(Clone, Copy, Debug, PartialEq, Eq, Structural)]
pub enum RebuildPhase {
    /// The current graph matches the last stable reading.
    Stable,
    /// A changed reading has been seen once and awaits confirmation.
    PendingRebuild,
}

/// What `observe` answers for a reading `d` in state `t`: rebuild only when
/// the reading repeats the previous one and still differs from what is built.
pub open spec fn rebuild_decision(t: DimTracker, d: Option<ScreenDims>) -> bool {
    d == t.observed && d != t.built
}

/// The state after `observe` sees reading `d`.
pub open spec fn observe_next(t: DimTracker, d: Option<ScreenDims>) -> DimTracker {
    DimTracker { built: t.built, observed: d }
}

/// The state after the graph has been rebuilt for the last observed reading.
pub open spec fn mark_built_next(t: DimTracker) -> DimTracker {
    DimTracker { built: t.observed, observed: t.observed }
}

impl DimTracker {
    /// A fresh tracker: nothing built, nothing observed.
    pub fn new() -> (t: DimTracker)
        ensures
            t.built is None,
            t.observed is None,
    {
        DimTracker { built: None, observed: None }
    }

    pub open spec fn phase(self) -> RebuildPhase {
        if self.observed == self.built {
            RebuildPhase::Stable
        } else {
            RebuildPhase::PendingRebuild
        }
    }

    /// Feed one polled reading to the state machine and learn whether the
    /// graph must be rebuilt now.
    pub fn observe(&mut self, d: Option<ScreenDims>) -> (rebuild: bool)
        ensures
            *final(self) == observe_next(*old(self), d),
            rebuild == rebuild_decision(*old(self), d),
    {
        if !dims_opt_eq(&self.observed, &d) {
            self.observed = d;
            return false;
        }
        !dims_opt_eq(&self.observed, &self.built)
    }

    /// Record that the graph has just been rebuilt for the observed reading.
    pub fn mark_built(&mut self)
        ensures
            *final(self) == mark_built_next(*old(self)),
    {
        self.built = self.observed;
    }

    /// Report the current phase to the orchestrating loop.
    pub fn current_phase(&self) -> (p: RebuildPhase)
        ensures
            p == self.phase(),
    {
        if dims_opt_eq(&self.observed, &self.built) {
            RebuildPhase::Stable
        } else {
            RebuildPhase::PendingRebuild
        }
    }
}

/// One polled frame of the orchestrating loop: observe the reading, and
/// when the decision is to rebuild, rebuild at once (which records the
/// reading as built).
pub open spec fn run_step(t: DimTracker, d: Option<ScreenDims>) -> (DimTracker, bool) {
    if rebuild_decision(t, d) {
        (mark_built_next(observe_next(t, d)), true)
    } else {
        (observe_next(t, d), false)
    }
}

/// The rebuild decisions a loop starting in state `t` makes over a whole
/// sequence of readings, rebuilding whenever the decision says so.
pub open spec fn run_decisions(t: DimTracker, rs: Seq<Option<ScreenDims>>) -> Seq<bool>
    decreases rs.len(),
{
    if rs.len() == 0 {
        Seq::empty()
    } else {
        seq![run_step(t, rs[0]).1] + run_decisions(run_step(t, rs[0]).0, rs.drop_first())
    }
}

/// The decision sequence is as long as the reading sequence.
pub proof fn lemma_run_decisions_len(t: DimTracker, rs: Seq<Option<ScreenDims>>)
    ensures
        run_decisions(t, rs).len() == rs.len(),
    decreases rs.len(),
{
    if rs.len() > 0 {
        lemma_run_decisions_len(run_step(t, rs[0]).0, rs.drop_first());
    }
}

/// Law, over all sequences of readings: the loop rebuilds only for a
/// reading that repeats the one before it — never for a reading just
/// changed.  (At step 0 the repeated reading is the one the starting
/// state last observed.)
pub proof fn lemma_rebuild_needs_repeated_reading(
    t: DimTracker,
    rs: Seq<Option<ScreenDims>>,
    k: int,
)
    requires
        0 <= k < rs.len(),
        run_decisions(t, rs)[k],
    ensures
        k == 0 ==> rs[0] == t.observed,
        k >= 1 ==> rs[k] == rs[k - 1],
    decreases rs.len(),
{
    lemma_run_decisions_len(run_step(t, rs[0]).0, rs.drop_first());
    if k == 0 {
    } else {
        lemma_rebuild_needs_repeated_reading(run_step(t, rs[0]).0, rs.drop_first(), k - 1);
        if k == 1 {
            assert(rs.drop_first()[0] == rs[1]);
            assert(run_step(t, rs[0]).0.observed == rs[0]);
        } else {
            assert(rs.drop_first()[k - 1] == rs[k]);
            assert(rs.drop_first()[k - 2] == rs[k - 1]);
        }
    }
}

/// Law, over all sequences of readings: at most one rebuild per
/// stabilized change.  Right after a rebuild, the same reading seen again
/// never rebuilds a second time.
pub proof fn lemma_at_most_one_rebuild_per_change(
    t: DimTracker,
    rs: Seq<Option<ScreenDims>>,
    k: int,
)
    requires
        0 <= k,
        k + 1 < rs.len(),
        run_decisions(t, rs)[k],
        rs[k + 1] == rs[k],
    ensures
        !run_decisions(t, rs)[k + 1],
    decreases rs.len(),
{
    lemma_run_decisions_len(run_step(t, rs[0]).0, rs.drop_first());
    if k == 0 {
        let t1 = run_step(t, rs[0]).0;
        assert(t1.built == rs[0] && t1.observed == rs[0]);
        assert(!rebuild_decision(t1, rs[1]));
        assert(run_decisions(t, rs)[1] == run_decisions(t1, rs.drop_first())[0]);
    } else {
        assert(rs.drop_first()[k - 1] == rs[k]);
        assert(rs.drop_first()[k] == rs[k + 1]);
        lemma_at_most_one_rebuild_per_change(run_step(t, rs[0]).0, rs.drop_first(), k - 1);
    }
}

/// Law: the first observation of a changed reading never triggers a rebuild;
/// the graph keeps serving one more frame while the change is recorded.
pub proof fn lemma_first_change_never_rebuilds(t: DimTracker, d: Option<ScreenDims>)
    requires
        d != t.observed,
    ensures
        !rebuild_decision(t, d),
{
}

/// Law: a rebuild happens only for a reading that repeats the previous one
/// and still differs from the dimensions the graph was built for — that is,
/// at most once per two consecutive identical-but-changed readings.
pub proof fn lemma_rebuild_needs_stable_change(t: DimTracker, d: Option<ScreenDims>)
    ensures
        rebuild_decision(t, d) ==> d == t.observed && d != t.built,
{
}

/// Law: from a stable state, a transient reading that reverts to the built
/// dimensions before the next check never causes a rebuild — not when it is
/// seen, not when it reverts, and not on any later check of the built
/// dimensions.
pub proof fn lemma_transient_revert_never_rebuilds(t: DimTracker, d: Option<ScreenDims>)
    requires
        t.observed == t.built,
    ensures
        !rebuild_decision(t, d),
        !rebuild_decision(observe_next(t, d), t.built),
        !rebuild_decision(observe_next(observe_next(t, d), t.built), t.built),
{
}

/// Law: right after a rebuild, re-observing the same reading does not ask
/// for another rebuild; one stabilized change yields exactly one rebuild.
pub proof fn lemma_no_double_rebuild(t: DimTracker, d: Option<ScreenDims>)
    requires
        rebuild_decision(t, d),
    ensures
        !rebuild_decision(mark_built_next(observe_next(t, d)), d),
{
}

} // verus!
