//! The teardown-order model for a wrapper that pairs a component borrowed
//! from a shared resource (a stream, or a single message) with the handle
//! clone that keeps the resource alive. The one safety rule of the whole
//! design: the borrowed component is released strictly before the handle,
//! on every exit path.

use vstd::prelude::*;

verus! {

/// One step of tearing such a wrapper down.
#[derive(Clone, Copy, PartialEq, Eq, Structural, Debug)]
pub enum TeardownStep {
    /// Release the borrowed component.
    ReleaseBorrowed,
    /// Release the handle clone that keeps the resource alive.
    ReleaseHandle,
}

/// What one wrapper still holds.
#[derive(Clone, Copy, PartialEq, Eq, Structural, Debug)]
pub struct WrapperState {
    pub borrowed_alive: bool,
    pub handle_held: bool,
}

impl WrapperState {
    /// The safety invariant: while the borrowed component is alive, the
    /// handle is held, so the resource the component points into is valid.
    pub open spec fn safe(&self) -> bool {
        self.borrowed_alive ==> self.handle_held
    }

    /// The invariant as a runtime check.
    pub fn check_safe(&self) -> (b: bool)
        ensures
            b == self.safe(),
    {
        !self.borrowed_alive || self.handle_held
    }
}

/// The state after one teardown step.
pub open spec fn apply_step(s: WrapperState, step: TeardownStep) -> WrapperState {
    match step {
        TeardownStep::ReleaseBorrowed => WrapperState { borrowed_alive: false, ..s },
        TeardownStep::ReleaseHandle => WrapperState { handle_held: false, ..s },
    }
}

/// Perform one teardown step on a wrapper state.
pub fn step(s: WrapperState, st: TeardownStep) -> (r: WrapperState)
    ensures
        r == apply_step(s, st),
{
    match st {
        TeardownStep::ReleaseBorrowed => WrapperState { borrowed_alive: false, ..s },
        TeardownStep::ReleaseHandle => WrapperState { handle_held: false, ..s },
    }
}

/// The order a wrapper is torn down in: the borrowed component first, the
/// handle second. An adapter's destructor follows this list.
pub fn teardown_steps() -> (r: Vec<TeardownStep>)
    ensures
        r@ == seq![TeardownStep::ReleaseBorrowed, TeardownStep::ReleaseHandle],
{
    let mut v: Vec<TeardownStep> = Vec::new();
    v.push(TeardownStep::ReleaseBorrowed);
    v.push(TeardownStep::ReleaseHandle);
    proof {
        assert(v@ =~= seq![TeardownStep::ReleaseBorrowed, TeardownStep::ReleaseHandle]);
    }
    v
}

/// Releasing the borrowed component first keeps every intermediate state
/// safe and ends with nothing held.
pub proof fn lemma_teardown_order_safe(s: WrapperState)
    requires
        s.safe(),
    ensures
        apply_step(s, TeardownStep::ReleaseBorrowed).safe(),
        apply_step(apply_step(s, TeardownStep::ReleaseBorrowed), TeardownStep::ReleaseHandle).safe(),
        !apply_step(
            apply_step(s, TeardownStep::ReleaseBorrowed),
            TeardownStep::ReleaseHandle,
        ).borrowed_alive,
        !apply_step(
            apply_step(s, TeardownStep::ReleaseBorrowed),
            TeardownStep::ReleaseHandle,
        ).handle_held,
{
}

/// The reversed order is never safe: releasing the handle while the
/// borrowed component is still alive leaves a component pointing into a
/// resource that may be gone.
pub proof fn lemma_teardown_reversed_unsafe(s: WrapperState)
    requires
        s.borrowed_alive,
    ensures
        !apply_step(s, TeardownStep::ReleaseHandle).safe(),
{
}

} // verus!
