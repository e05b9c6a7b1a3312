//! Stack-safe execution of deeply recursive computations.
//!
//! A guarded call checks how much stack is left before it runs its body. When
//! the headroom is below the configured threshold the body runs on a freshly
//! allocated stack segment instead. Each guarded call lends its body a
//! protected [`Protection`] that cannot outlive the call, and the
//! [`StackSafe`] wrapper for recursive data hands out its contents only to
//! code that holds one.

pub mod gate;
pub mod guard;
pub mod internal;
pub mod policy;

pub use gate::{plan_call, run_placed, stacksafe, Placement, MAX_SEGMENT_BYTES};
pub use guard::StackSafe;
pub use internal::{is_protected, with_protected, Protection};
pub use policy::{
    get_minimum_stack_size, get_stack_allocation_size, set_minimum_stack_size,
    set_stack_allocation_size, GrowthPolicy,
};
