//! The wrapper for nodes of recursive data structures.
use crate::gate::{stacksafe, MAX_SEGMENT_BYTES};
use crate::internal::Protection;
use crate::policy::GrowthPolicy;
use vstd::prelude::*;
use vstd::std_specs::cmp::{OrdSpec, PartialEqSpec, PartialOrdSpec};
use vstd::std_specs::convert::FromSpec;

verus! {

/// Owns one value of a recursive data structure and hands it out only to
/// code that holds a protected [`Protection`], which only a running guarded
/// call can lend.
///
/// [`StackSafe::try_get`] checks the same condition at run time.
/// Equality and partial order run inside a guarded call under the default
/// policy. [`StackSafe::equals`], [`StackSafe::compare`],
/// [`StackSafe::duplicate`] and [`StackSafe::dispose`] do their work inside
/// a guarded call under a policy of the caller's choosing; `compare` is the
/// total order where `T` has one. The derived `Clone`, `Hash` and `Debug`
/// read the value directly, so for them no level is guarded. Dropping a wrapper is not guarded either: use
/// [`StackSafe::dispose`] to tear a deep structure down.
#[derive(Clone, Debug, Hash)]
pub struct StackSafe<T> {
    value: T,
}

impl<T> View for StackSafe<T> {
    type V = T;

    closed spec fn view(&self) -> T {
        self.value
    }
}

impl<T> StackSafe<T> {
    /// Wraps `value`, taking ownership of it.
    pub fn new(value: T) -> (r: StackSafe<T>)
        ensures
            r@ == value,
    {
        StackSafe { value }
    }

    /// The wrapped value, read from inside a guarded call.
    pub fn get(&self, protection: &Protection) -> (r: &T)
        requires
            protection@,
        ensures
            *r == self@,
    {
        &self.value
    }

    /// The wrapped value where `protection` is protected, `None` elsewhere.
    pub fn try_get(&self, protection: &Protection) -> (r: Option<&T>)
        ensures
            r is Some <==> protection@,
            r matches Some(v) ==> *v == self@,
    {
        if crate::internal::is_protected(protection) {
            Some(&self.value)
        } else {
            None
        }
    }

    /// Mutable access to the wrapped value from inside a guarded call.
    pub fn get_mut(&mut self, protection: &Protection) -> (r: &mut T)
        requires
            protection@,
        ensures
            *r == old(self)@,
            final(self)@ == *final(r),
    {
        &mut self.value
    }

    /// Replaces the wrapped value from inside a guarded call.
    pub fn set(&mut self, protection: &Protection, value: T)
        requires
            protection@,
        ensures
            final(self)@ == value,
    {
        self.value = value;
    }

    /// Unwraps the value from inside a guarded call.
    pub fn into_inner(self, protection: &Protection) -> (r: T)
        requires
            protection@,
        ensures
            r == self@,
    {
        self.value
    }

    /// Destroys the wrapped value inside a guarded call, so that tearing
    /// down a deep structure cannot exhaust the stack.
    pub fn dispose(self, policy: &GrowthPolicy)
        requires
            policy.allocation_bytes <= MAX_SEGMENT_BYTES,
    {
        let value = self.value;
        stacksafe(policy, move |_q: &Protection| {
            let _discarded = value;
        });
    }
}

impl<T: Clone> StackSafe<T> {
    /// Clones the wrapped value inside a guarded call.
    pub fn duplicate(&self, policy: &GrowthPolicy) -> (r: StackSafe<T>)
        requires
            policy.allocation_bytes <= MAX_SEGMENT_BYTES,
        ensures
            cloned(self@, r@),
    {
        let copy_inner = |q: &Protection| -> (c: T)
            ensures
                cloned(self@, c),
        {
            self.value.clone()
        };
        let value = stacksafe(policy, copy_inner);
        StackSafe { value }
    }
}

impl<T: PartialEq + PartialEqSpec> StackSafe<T> {
    /// Compares the wrapped values for equality inside a guarded call.
    pub fn equals(&self, other: &StackSafe<T>, policy: &GrowthPolicy) -> (r: bool)
        requires
            policy.allocation_bytes <= MAX_SEGMENT_BYTES,
        ensures
            T::obeys_eq_spec() ==> r == self@.eq_spec(&other@),
    {
        let compare = |q: &Protection| -> (b: bool)
            ensures
                T::obeys_eq_spec() ==> b == self@.eq_spec(&other@),
        {
            self.value == other.value
        };
        stacksafe(policy, compare)
    }
}

impl<T: PartialOrd + PartialOrdSpec + PartialEqSpec> StackSafe<T> {
    /// Orders the wrapped values inside a guarded call, where they are comparable.
    pub fn partial_compare(&self, other: &StackSafe<T>, policy: &GrowthPolicy) -> (r: Option<
        core::cmp::Ordering,
    >)
        requires
            policy.allocation_bytes <= MAX_SEGMENT_BYTES,
        ensures
            T::obeys_partial_cmp_spec() ==> r == self@.partial_cmp_spec(&other@),
    {
        let order = |q: &Protection| -> (o: Option<core::cmp::Ordering>)
            ensures
                T::obeys_partial_cmp_spec() ==> o == self@.partial_cmp_spec(&other@),
        {
            self.value.partial_cmp(&other.value)
        };
        stacksafe(policy, order)
    }
}

impl<T: Ord + OrdSpec> StackSafe<T> {
    /// Orders the wrapped values inside a guarded call.
    pub fn compare(&self, other: &StackSafe<T>, policy: &GrowthPolicy) -> (r: core::cmp::Ordering)
        requires
            policy.allocation_bytes <= MAX_SEGMENT_BYTES,
        ensures
            T::obeys_cmp_spec() ==> r == self@.cmp_spec(&other@),
    {
        let order = |q: &Protection| -> (o: core::cmp::Ordering)
            ensures
                T::obeys_cmp_spec() ==> o == self@.cmp_spec(&other@),
        {
            self.value.cmp(&other.value)
        };
        stacksafe(policy, order)
    }
}

impl<T: PartialEq + PartialEqSpec> PartialEq for StackSafe<T> {
    fn eq(&self, other: &StackSafe<T>) -> (r: bool) {
        self.equals(other, &GrowthPolicy::new())
    }
}

impl<T: PartialEq + PartialEqSpec> vstd::std_specs::cmp::PartialEqSpecImpl for StackSafe<T> {
    open spec fn obeys_eq_spec() -> bool {
        T::obeys_eq_spec()
    }

    open spec fn eq_spec(&self, other: &StackSafe<T>) -> bool {
        self@.eq_spec(&other@)
    }
}

impl<T: Eq + PartialEqSpec> Eq for StackSafe<T> {

}

impl<T: PartialOrd + PartialOrdSpec + PartialEqSpec> PartialOrd for StackSafe<T> {
    fn partial_cmp(&self, other: &StackSafe<T>) -> (r: Option<core::cmp::Ordering>) {
        self.partial_compare(other, &GrowthPolicy::new())
    }
}

impl<T: PartialOrd + PartialOrdSpec + PartialEqSpec> vstd::std_specs::cmp::PartialOrdSpecImpl for StackSafe<T> {
    open spec fn obeys_partial_cmp_spec() -> bool {
        T::obeys_partial_cmp_spec()
    }

    open spec fn partial_cmp_spec(&self, other: &StackSafe<T>) -> Option<core::cmp::Ordering> {
        self@.partial_cmp_spec(&other@)
    }
}

impl<T> From<T> for StackSafe<T> {
    fn from(value: T) -> (r: StackSafe<T>) {
        StackSafe::new(value)
    }
}

impl<T> vstd::std_specs::convert::FromSpecImpl<T> for StackSafe<T> {
    open spec fn obeys_from_spec() -> bool {
        true
    }

    closed spec fn from_spec(v: T) -> StackSafe<T> {
        StackSafe { value: v }
    }
}

/// `StackSafe::from(v)` wraps exactly `v`, as `StackSafe::new(v)` does.
pub proof fn lemma_from_wraps<T>(v: T)
    ensures
        <StackSafe<T> as FromSpec<T>>::from_spec(v)@ == v,
{
}

impl<T: Default> Default for StackSafe<T> {
    fn default() -> (r: StackSafe<T>)
        ensures
            call_ensures(T::default, (), r@),
    {
        StackSafe::new(T::default())
    }
}

} // verus!
