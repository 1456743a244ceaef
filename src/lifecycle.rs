use vstd::prelude::*;

verus! {

/// The lifecycle state of a handle or a volume.
#[derive(Debug, Clone, Copy, PartialEq, Eq, Structural)]
pub enum Lifecycle {
    /// Initialized and not open.
    Closed,
    /// Open for I/O or queries.
    Open,
    /// Released; terminal.
    Freed,
}

/// One step that teardown performs on the underlying resource.
#[derive(Debug, Clone, Copy, PartialEq, Eq, Structural)]
pub enum TeardownStep {
    Close,
    Free,
}

/// The steps that tearing down a resource in state `s` performs:
/// close if open, then free, and nothing once freed.
pub open spec fn teardown_steps(s: Lifecycle) -> Seq<TeardownStep> {
    match s {
        Lifecycle::Open => seq![TeardownStep::Close, TeardownStep::Free],
        Lifecycle::Closed => seq![TeardownStep::Free],
        Lifecycle::Freed => seq![],
    }
}

/// How many times `step` occurs in `steps`.
pub open spec fn step_count(steps: Seq<TeardownStep>, step: TeardownStep) -> nat {
    steps.filter(|t: TeardownStep| t == step).len()
}

/// Tears a resource down: closes it if it is open, then frees it.
/// A resource that is already freed is left as it is.
pub fn teardown(state: &mut Lifecycle) -> (steps: Vec<TeardownStep>)
    ensures
        steps@ == teardown_steps(*old(state)),
        *final(state) == Lifecycle::Freed,
{
    let mut steps: Vec<TeardownStep> = Vec::new();
    match *state {
        Lifecycle::Open => {
            steps.push(TeardownStep::Close);
            steps.push(TeardownStep::Free);
        },
        Lifecycle::Closed => {
            steps.push(TeardownStep::Free);
        },
        Lifecycle::Freed => {},
    }
    *state = Lifecycle::Freed;
    steps
}

/// Tearing a resource down a second time, after a first teardown, adds no
/// step: over both runs the resource is freed exactly once and closed at
/// most once, and closed only if it was open.
pub proof fn lemma_teardown_idempotent(s: Lifecycle)
    requires
        s != Lifecycle::Freed,
    ensures
        teardown_steps(Lifecycle::Freed) == Seq::<TeardownStep>::empty(),
        step_count(teardown_steps(s) + teardown_steps(Lifecycle::Freed), TeardownStep::Free) == 1,
        step_count(teardown_steps(s) + teardown_steps(Lifecycle::Freed), TeardownStep::Close)
            == (if s == Lifecycle::Open { 1nat } else { 0nat }),
{
    let both = teardown_steps(s) + teardown_steps(Lifecycle::Freed);
    assert(both =~= teardown_steps(s));
    reveal_with_fuel(Seq::filter, 3);
    if s == Lifecycle::Open {
        assert(teardown_steps(s).drop_last() =~= seq![TeardownStep::Close]);
        assert(seq![TeardownStep::Close].drop_last() =~= Seq::<TeardownStep>::empty());
    } else {
        assert(teardown_steps(s).drop_last() =~= Seq::<TeardownStep>::empty());
    }
}

} // verus!
