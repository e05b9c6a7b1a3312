//! The growth policy: when a guarded call grows the stack, and by how much.
use vstd::prelude::*;

verus! {

/// Threshold of remaining stack below which a guarded call moves to a new segment.
pub const DEFAULT_MINIMUM_STACK_BYTES: usize = 131072;

/// Size of each newly allocated stack segment.
pub const DEFAULT_STACK_ALLOCATION_BYTES: usize = 2097152;

/// The two tunables that drive the growth decision of a guarded call.
///
/// Each field is read and written on its own; no relation between them is
/// enforced (a threshold above the allocation size is legal, if wasteful).
pub struct GrowthPolicy {
    pub minimum_stack_bytes: usize,
    pub allocation_bytes: usize,
}

impl GrowthPolicy {
    /// A policy with the default threshold (128 KiB) and segment size (2 MiB).
    pub fn new() -> (r: GrowthPolicy)
        ensures
            r.minimum_stack_bytes == DEFAULT_MINIMUM_STACK_BYTES,
            r.allocation_bytes == DEFAULT_STACK_ALLOCATION_BYTES,
    {
        GrowthPolicy {
            minimum_stack_bytes: DEFAULT_MINIMUM_STACK_BYTES,
            allocation_bytes: DEFAULT_STACK_ALLOCATION_BYTES,
        }
    }

    /// A policy with the given threshold and segment size.
    pub fn with_sizes(minimum_stack_bytes: usize, allocation_bytes: usize) -> (r: GrowthPolicy)
        ensures
            r.minimum_stack_bytes == minimum_stack_bytes,
            r.allocation_bytes == allocation_bytes,
    {
        GrowthPolicy { minimum_stack_bytes, allocation_bytes }
    }
}

impl Default for GrowthPolicy {
    fn default() -> (r: GrowthPolicy)
        ensures
            r.minimum_stack_bytes == DEFAULT_MINIMUM_STACK_BYTES,
            r.allocation_bytes == DEFAULT_STACK_ALLOCATION_BYTES,
    {
        GrowthPolicy::new()
    }
}

/// Sets the remaining-stack threshold below which a guarded call grows the stack.
///
/// Zero is accepted: a guarded call then grows only where the headroom is unknown.
pub fn set_minimum_stack_size(policy: &mut GrowthPolicy, bytes: usize)
    ensures
        final(policy).minimum_stack_bytes == bytes,
        final(policy).allocation_bytes == old(policy).allocation_bytes,
{
    policy.minimum_stack_bytes = bytes;
}

/// The current remaining-stack threshold, in bytes.
pub fn get_minimum_stack_size(policy: &GrowthPolicy) -> (r: usize)
    ensures
        r == policy.minimum_stack_bytes,
{
    policy.minimum_stack_bytes
}

/// Sets the size, in bytes, of each stack segment that a guarded call allocates.
pub fn set_stack_allocation_size(policy: &mut GrowthPolicy, bytes: usize)
    ensures
        final(policy).allocation_bytes == bytes,
        final(policy).minimum_stack_bytes == old(policy).minimum_stack_bytes,
{
    policy.allocation_bytes = bytes;
}

/// The current segment size, in bytes.
pub fn get_stack_allocation_size(policy: &GrowthPolicy) -> (r: usize)
    ensures
        r == policy.allocation_bytes,
{
    policy.allocation_bytes
}

} // verus!
