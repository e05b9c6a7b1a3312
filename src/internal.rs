//! The protection flag: whether execution is inside a guarded call.
//!
//! A guarded call lends its body a protected [`Protection`] that it creates
//! for that call alone. The body only borrows it, so it cannot outlive the
//! call: once every guarded call has ended no protected value is left, and a
//! caller's own value is never changed by a guarded call, on any exit path.
//! Nested guarded calls compose, since leaving an inner one cannot touch the
//! value that an outer one lent.
use vstd::prelude::*;

verus! {

/// The protection state of one call chain.
///
/// A value made with [`Protection::new`] is unprotected; only a guarded call
/// makes a protected one, and lends it for the extent of that call.
#[derive(Debug)]
pub struct Protection {
    protected: bool,
}

impl View for Protection {
    type V = bool;

    closed spec fn view(&self) -> bool {
        self.protected
    }
}

impl Protection {
    /// The state outside any guarded call: not protected.
    pub fn new() -> (r: Protection)
        ensures
            !r@,
    {
        Protection { protected: false }
    }
}

/// Whether `protection` was lent by a guarded call that is still running.
pub fn is_protected(protection: &Protection) -> (r: bool)
    ensures
        r == protection@,
{
    protection.protected
}

/// Runs `callback` on the current stack, lending it a protected state.
pub fn with_protected<R, F: FnOnce(&Protection) -> R>(callback: F) -> (r: R)
    requires
        forall|q: &Protection| q@ ==> #[trigger] callback.requires((q,)),
    ensures
        exists|q: &Protection| q@ && #[trigger] callback.ensures((q,), r),
{
    let inside = Protection { protected: true };
    callback(&inside)
}

} // verus!
