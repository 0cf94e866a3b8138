//! The terrain build: when it runs, and what it does to a vertex set.

use vstd::prelude::*;

verus! {

/// Progress of the one-time terrain build.
#[derive(Clone, Copy, Debug, PartialEq, Eq, Structural)]
pub enum Generation {
    /// The backing resource has not been seen ready yet.
    Pending,
    /// The resource is ready and the build has not run.
    Ready,
    /// The build has run; nothing runs it again.
    Done,
}

impl Generation {
    /// The state after the readiness flag has been looked at.
    pub open spec fn observed(self, resource_ready: bool) -> Generation {
        if self == Generation::Pending && resource_ready {
            Generation::Ready
        } else {
            self
        }
    }

    /// Whether the build runs when it is asked to begin in this state.
    pub open spec fn runs(self) -> bool {
        self == Generation::Ready
    }

    /// The state after the build has been asked to begin.
    pub open spec fn begun(self) -> Generation {
        if self == Generation::Ready {
            Generation::Done
        } else {
            self
        }
    }

    /// Whether one poll with this flag runs the build.
    pub open spec fn poll_runs(self, resource_ready: bool) -> bool {
        self.observed(resource_ready).runs()
    }

    /// The state after one poll with this flag.
    pub open spec fn polled(self, resource_ready: bool) -> Generation {
        self.observed(resource_ready).begun()
    }

    /// The state before anything has been loaded.
    pub fn new() -> (state: Generation)
        ensures
            state == Generation::Pending,
    {
        Generation::Pending
    }

    /// Looks at the readiness flag: a pending build becomes ready once the
    /// flag is set, every other state stays as it is.
    pub fn observe(self, resource_ready: bool) -> (next: Generation)
        ensures
            next == self.observed(resource_ready),
    {
        match self {
            Generation::Pending => if resource_ready {
                Generation::Ready
            } else {
                Generation::Pending
            },
            Generation::Ready => Generation::Ready,
            Generation::Done => Generation::Done,
        }
    }

    /// Asks the build to begin. It runs from `Ready` only, and then the state
    /// is `Done`.
    pub fn begin(self) -> (step: (Generation, bool))
        ensures
            step.0 == self.begun(),
            step.1 == self.runs(),
    {
        match self {
            Generation::Pending => (Generation::Pending, false),
            Generation::Ready => (Generation::Done, true),
            Generation::Done => (Generation::Done, false),
        }
    }

    /// One poll of a frame: looks at the flag, then asks the build to begin.
    pub fn poll(self, resource_ready: bool) -> (step: (Generation, bool))
        ensures
            step.0 == self.polled(resource_ready),
            step.1 == self.poll_runs(resource_ready),
    {
        self.observe(resource_ready).begin()
    }

    /// Whether the build has run.
    pub fn is_done(self) -> (done: bool)
        ensures
            done == (self == Generation::Done),
    {
        match self {
            Generation::Done => true,
            _ => false,
        }
    }
}

impl Default for Generation {
    /// The state before anything has been loaded.
    fn default() -> (state: Self)
        ensures
            state == Generation::Pending,
    {
        Generation::Pending
    }
}

/// The state after polling once for each flag of `flags`, in order.
pub open spec fn state_after(start: Generation, flags: Seq<bool>) -> Generation
    decreases flags.len(),
{
    if flags.len() == 0 {
        start
    } else {
        state_after(start, flags.drop_last()).polled(flags.last())
    }
}

/// How many of the polls of `flags`, made in order from `start`, run the build.
pub open spec fn runs_during(start: Generation, flags: Seq<bool>) -> nat
    decreases flags.len(),
{
    if flags.len() == 0 {
        0
    } else {
        let before = runs_during(start, flags.drop_last());
        if state_after(start, flags.drop_last()).poll_runs(flags.last()) {
            before + 1
        } else {
            before
        }
    }
}

/// Once the build has run, no sequence of polls leaves `Done` or runs it again.
pub proof fn lemma_done_is_terminal(flags: Seq<bool>)
    ensures
        state_after(Generation::Done, flags) == Generation::Done,
        runs_during(Generation::Done, flags) == 0,
    decreases flags.len(),
{
    if flags.len() > 0 {
        lemma_done_is_terminal(flags.drop_last());
    }
}

/// From `Pending`, the build runs exactly once if some poll sees the resource
/// ready and never otherwise, and it is `Done` exactly in the first case.
pub proof fn lemma_runs_exactly_once(flags: Seq<bool>)
    ensures
        flags.contains(true) ==> runs_during(Generation::Pending, flags) == 1 && state_after(
            Generation::Pending,
            flags,
        ) == Generation::Done,
        !flags.contains(true) ==> runs_during(Generation::Pending, flags) == 0 && state_after(
            Generation::Pending,
            flags,
        ) == Generation::Pending,
    decreases flags.len(),
{
    if flags.len() > 0 {
        let head = flags.drop_last();
        lemma_runs_exactly_once(head);
        if head.contains(true) {
            let i = choose|i: int| 0 <= i < head.len() && head[i] == true;
            assert(flags[i] == true);
        } else if flags.last() {
            assert(flags[flags.len() - 1] == true);
        } else {
            assert forall|i: int| 0 <= i < flags.len() implies flags[i] != true by {
                if i < head.len() {
                    assert(head[i] == flags[i]);
                    assert(!head.contains(flags[i]) || flags[i] == false);
                }
            }
        }
    }
}

/// Whether `out` holds, index for index, a result of `radial` on the vertex
/// of `base` at that index: as many vertices, in the same order.
pub open spec fn is_displacement<V, F: Fn(&V) -> V>(base: Seq<V>, out: Seq<V>, radial: F) -> bool {
    &&& out.len() == base.len()
    &&& forall|i: int| 0 <= i < base.len() ==> call_ensures(radial, (&base[i],), #[trigger] out[i])
}

/// Displaces a vertex set: calls `radial` once on each vertex, first to last,
/// and returns the results in the order of the vertices they came from. An
/// empty set gives an empty set.
pub fn displace<V, F: Fn(&V) -> V>(base: &Vec<V>, radial: F) -> (out: Vec<V>)
    requires
        forall|i: int| 0 <= i < base@.len() ==> call_requires(radial, (&base@[i],)),
    ensures
        out@.len() == base@.len(),
        is_displacement(base@, out@, radial),
{
    let mut out: Vec<V> = Vec::new();
    let mut k: usize = 0;
    while k < base.len()
        invariant
            k <= base@.len(),
            out@.len() == k,
            forall|i: int| 0 <= i < base@.len() ==> call_requires(radial, (&base@[i],)),
            forall|i: int| 0 <= i < k ==> call_ensures(radial, (&base@[i],), #[trigger] out@[i]),
        decreases base@.len() - k,
    {
        let moved = radial(&base[k]);
        out.push(moved);
        k += 1;
    }
    out
}

/// One poll of the terrain build. The vertex set is displaced in the one poll
/// that runs the build, and the state is then `Done`; every other poll
/// returns `None` and computes nothing.
pub fn generate_when_ready<V, F: Fn(&V) -> V>(
    state: &mut Generation,
    resource_ready: bool,
    base: &Vec<V>,
    radial: F,
) -> (out: Option<Vec<V>>)
    requires
        forall|i: int| 0 <= i < base@.len() ==> call_requires(radial, (&base@[i],)),
    ensures
        *final(state) == old(state).polled(resource_ready),
        out.is_some() == old(state).poll_runs(resource_ready),
        out matches Some(mesh) ==> is_displacement(base@, mesh@, radial),
{
    let step = state.poll(resource_ready);
    *state = step.0;
    if step.1 {
        Some(displace(base, radial))
    } else {
        None
    }
}

} // verus!
