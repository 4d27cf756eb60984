use vstd::prelude::*;

verus! {

/// Flags passed to an actor's allocation.
#[derive(Clone, Copy, Debug, PartialEq, Eq, Structural)]
pub enum Flags {
    /// No flag set.
    NoFlags,
    /// Whether the absolute origin of the actor has changed; this implies
    /// that any ancestor of the actor has been moved.
    AbsoluteOriginChanged,
    /// Whether the allocation should be delegated to the layout manager
    /// stored in the actor's `layout-manager` property.
    DelegateLayout,
}

/// The numeric code under which the native enumeration keeps `flags`.
pub open spec fn spec_allocation_code(flags: Flags) -> i32 {
    match flags {
        Flags::NoFlags => 0,
        Flags::AbsoluteOriginChanged => 2,
        Flags::DelegateLayout => 4,
    }
}

/// The allocation flag that a native code names, if any.
pub open spec fn spec_allocation_of_code(code: i32) -> Option<Flags> {
    if code == 0 {
        Some(Flags::NoFlags)
    } else if code == 2 {
        Some(Flags::AbsoluteOriginChanged)
    } else if code == 4 {
        Some(Flags::DelegateLayout)
    } else {
        None
    }
}

impl Flags {
    /// The code that stands for this flag across the foreign boundary.
    pub fn to_raw(self) -> (code: i32)
        ensures
            code == spec_allocation_code(self),
    {
        match self {
            Flags::NoFlags => 0,
            Flags::AbsoluteOriginChanged => 2,
            Flags::DelegateLayout => 4,
        }
    }

    /// Reads an allocation flag back from its native code; `None` for a code
    /// the enumeration does not define.
    pub fn from_raw(code: i32) -> (flags: Option<Flags>)
        ensures
            flags == spec_allocation_of_code(code),
    {
        if code == 0 {
            Some(Flags::NoFlags)
        } else if code == 2 {
            Some(Flags::AbsoluteOriginChanged)
        } else if code == 4 {
            Some(Flags::DelegateLayout)
        } else {
            None
        }
    }
}

/// Every allocation flag comes back unchanged from a round trip through its
/// code, and a code that names a flag is the code of that flag.
pub proof fn lemma_allocation_code_round_trip(flags: Flags, code: i32)
    ensures
        spec_allocation_of_code(spec_allocation_code(flags)) == Some(flags),
        spec_allocation_of_code(code) matches Some(f) ==> spec_allocation_code(f) == code,
{
}

} // verus!
