//! The growth gate: where a guarded call runs, and the guarded call itself.
use crate::internal::{with_protected, Protection};
use crate::policy::GrowthPolicy;
use vstd::prelude::*;

verus! {

/// The largest segment a guarded call may request. Beyond it the segment's
/// size, rounded up to whole pages, could not be represented.
pub const MAX_SEGMENT_BYTES: usize = usize::MAX / 4;

/// Where a guarded call runs its body.
#[derive(Clone, Copy, Debug, PartialEq, Eq, Structural)]
pub enum Placement {
    /// On the current stack: enough headroom is left.
    CurrentStack,
    /// On a new segment of the given size in bytes.
    NewSegment(usize),
}

/// The placement a guarded call chooses for a given policy and headroom.
///
/// An unknown headroom counts as too little: the call then grows, since
/// nothing shows that the current stack can take it.
pub open spec fn placement_for(minimum: usize, allocation: usize, headroom: Option<usize>) -> Placement {
    match headroom {
        Some(h) => if h >= minimum {
            Placement::CurrentStack
        } else {
            Placement::NewSegment(allocation)
        },
        None => Placement::NewSegment(allocation),
    }
}

/// Decides where a guarded call runs, given the remaining stack `headroom`
/// (`None` where the platform cannot tell).
pub fn plan_call(policy: &GrowthPolicy, headroom: Option<usize>) -> (r: Placement)
    ensures
        r == placement_for(policy.minimum_stack_bytes, policy.allocation_bytes, headroom),
{
    match headroom {
        Some(h) => if h >= policy.minimum_stack_bytes {
            Placement::CurrentStack
        } else {
            Placement::NewSegment(policy.allocation_bytes)
        },
        None => Placement::NewSegment(policy.allocation_bytes),
    }
}

/// Where the headroom reaches the threshold, a guarded call stays on the
/// current stack: no segment is allocated for a shallow computation.
pub proof fn law_enough_headroom_stays(minimum: usize, allocation: usize, headroom: usize)
    requires
        headroom >= minimum,
    ensures
        placement_for(minimum, allocation, Some(headroom)) == Placement::CurrentStack,
{
}

/// Where the headroom is below the threshold, or unknown, a guarded call
/// moves to a new segment of exactly the policy's allocation size; raising
/// the threshold therefore only moves calls onto new segments.
pub proof fn law_short_headroom_grows(minimum: usize, allocation: usize, headroom: Option<usize>)
    requires
        headroom matches Some(h) ==> h < minimum,
    ensures
        placement_for(minimum, allocation, headroom) == Placement::NewSegment(allocation),
{
}

/// Relies on stacker::remaining_stack: the stack left to the current thread,
/// or `None` where the platform cannot tell. It depends on the machine and
/// the call depth, so nothing is stated of it.
#[verifier::external_body]
fn remaining_stack() -> (r: Option<usize>) {
    stacker::remaining_stack()
}

/// Relies on stacker::grow: it maps a new segment of at least `stack_size`
/// bytes, runs `callback` on it exactly once, releases the segment and
/// returns what the callback returned. It panics where the size rounded up
/// to pages overflows, which the bound leaves out, and where the segment
/// cannot be mapped: that panic unwinds out of the guarded call, as no
/// computation can go on without the stack it asked for.
#[verifier::external_body]
fn grow<R, F: FnOnce() -> R>(stack_size: usize, callback: F) -> (r: R)
    requires
        stack_size <= MAX_SEGMENT_BYTES,
        callback.requires(()),
    ensures
        callback.ensures((), r),
{
    stacker::grow(stack_size, callback)
}

/// Runs `body` where `placement` says, lending it a protected state.
///
/// The body's result is passed through unchanged, whichever placement is
/// taken.
pub fn run_placed<R, F: FnOnce(&Protection) -> R>(placement: Placement, body: F) -> (r: R)
    requires
        forall|q: &Protection| q@ ==> #[trigger] body.requires((q,)),
        placement matches Placement::NewSegment(n) ==> n <= MAX_SEGMENT_BYTES,
    ensures
        exists|q: &Protection| q@ && #[trigger] body.ensures((q,), r),
{
    match placement {
        Placement::CurrentStack => with_protected(body),
        Placement::NewSegment(bytes) => {
            let on_segment = move || -> (r: R)
                requires
                    forall|q: &Protection| q@ ==> #[trigger] body.requires((q,)),
                ensures
                    exists|q: &Protection| q@ && #[trigger] body.ensures((q,), r),
            {
                with_protected(body)
            };
            grow(bytes, on_segment)
        },
    }
}

/// The guarded call: runs `body` on the current stack where at least the
/// policy's threshold of stack is left, else on a new segment of the
/// policy's allocation size.
///
/// Whatever the policy and the headroom, the result is what `body` returns
/// when lent a protected state. The state is created for this call and only
/// borrowed by `body`, so it ends with the call; a guarded call nested in
/// another leaves the outer call's state as it was.
pub fn stacksafe<R, F: FnOnce(&Protection) -> R>(policy: &GrowthPolicy, body: F) -> (r: R)
    requires
        forall|q: &Protection| q@ ==> #[trigger] body.requires((q,)),
        policy.allocation_bytes <= MAX_SEGMENT_BYTES,
    ensures
        exists|q: &Protection| q@ && #[trigger] body.ensures((q,), r),
{
    let headroom = remaining_stack();
    let placement = plan_call(policy, headroom);
    run_placed(placement, body)
}

} // verus!
