//! Values restricted to a closed interval at construction time.
//!
//! Several call parameters are drawn from platform- or implementation-
//! reserved sub-ranges of an ID space (reset reasons, suspend types,
//! performance-state selectors). [`RestrictedRange`] fixes the interval in
//! the type and rejects construction outside it, so a reserved or
//! out-of-range value can never reach the wire: the bound is checked once at
//! construction and holds for the value's whole lifetime.

use vstd::prelude::*;

verus! {

/// A value known at all times to lie within the closed interval
/// `[MIN, MAX]`.
///
/// Construction outside the interval is rejected loudly: [`Self::new`]
/// demands the bound as a precondition, and [`Self::try_new`] returns `None`
/// exactly on the values the interval excludes. Nothing ever clamps: a value
/// is stored exactly as given or not at all.
#[derive(Debug, Clone, Copy)]
pub struct RestrictedRange<const MIN: u32, const MAX: u32>(pub(crate) u32);

impl<const MIN: u32, const MAX: u32> RestrictedRange<MIN, MAX> {
    /// The stored value.
    pub closed spec fn spec_value(self) -> u32 {
        self.0
    }

    /// Every value of this type lies within its interval.
    #[verifier::type_invariant]
    pub closed spec fn wf(self) -> bool {
        MIN <= self.0 <= MAX
    }

    /// Create a new [`RestrictedRange`] value. A value outside `[MIN, MAX]`
    /// is a programmer error and is excluded by contract; use
    /// [`Self::try_new`] where the value is not known to be in range.
    pub fn new(value: u32) -> (r: Self)
        requires
            MIN <= value <= MAX,
        ensures
            r.spec_value() == value,
    {
        Self(value)
    }

    /// Create a new [`RestrictedRange`] value, returning `None` exactly when
    /// `value` lies outside `[MIN, MAX]` and storing exactly `value`
    /// otherwise.
    pub fn try_new(value: u32) -> (r: Option<Self>)
        ensures
            MIN <= value <= MAX ==> (r matches Some(v) && v.spec_value() == value),
            !(MIN <= value <= MAX) ==> r is None,
    {
        if MIN <= value && value <= MAX {
            Some(Self(value))
        } else {
            None
        }
    }

    /// The raw value, known to lie within `[MIN, MAX]`.
    pub fn value(self) -> (r: u32)
        ensures
            r == self.spec_value(),
            MIN <= r <= MAX,
    {
        proof {
            use_type_invariant(self);
        }
        self.0
    }
}

} // verus!
