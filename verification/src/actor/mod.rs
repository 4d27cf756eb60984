use vstd::prelude::*;

pub mod allocation;

verus! {

/// Flags that the native library keeps on every actor. Each flag occupies
/// one bit of the actor's flag word.
#[derive(Clone, Copy, Debug, PartialEq, Eq, Structural)]
pub enum Flags {
    /// The actor will be painted (is visible, and inside a toplevel, and all
    /// parents visible).
    Mapped,
    /// The resources associated to the actor have been allocated.
    Realized,
    /// The actor reacts to events.
    Reactive,
    /// The actor has been shown by the explicit show call.
    Visible,
    /// The actor provides no layout management for its children.
    NoLayout,
}

/// The bit under which the native flag word keeps `flags`.
pub open spec fn spec_flags_bit(flags: Flags) -> i32 {
    match flags {
        Flags::Mapped => 2,
        Flags::Realized => 4,
        Flags::Reactive => 8,
        Flags::Visible => 16,
        Flags::NoLayout => 32,
    }
}

/// The flag that a native bit names, if any.
pub open spec fn spec_flags_of_bit(code: i32) -> Option<Flags> {
    if code == 2 {
        Some(Flags::Mapped)
    } else if code == 4 {
        Some(Flags::Realized)
    } else if code == 8 {
        Some(Flags::Reactive)
    } else if code == 16 {
        Some(Flags::Visible)
    } else if code == 32 {
        Some(Flags::NoLayout)
    } else {
        None
    }
}

impl Flags {
    /// The bit that stands for this flag across the foreign boundary.
    pub fn to_raw(self) -> (code: i32)
        ensures
            code == spec_flags_bit(self),
    {
        match self {
            Flags::Mapped => 2,
            Flags::Realized => 4,
            Flags::Reactive => 8,
            Flags::Visible => 16,
            Flags::NoLayout => 32,
        }
    }

    /// Reads a flag back from its native bit; `None` for a code that is not
    /// exactly one defined bit.
    pub fn from_raw(code: i32) -> (flags: Option<Flags>)
        ensures
            flags == spec_flags_of_bit(code),
    {
        if code == 2 {
            Some(Flags::Mapped)
        } else if code == 4 {
            Some(Flags::Realized)
        } else if code == 8 {
            Some(Flags::Reactive)
        } else if code == 16 {
            Some(Flags::Visible)
        } else if code == 32 {
            Some(Flags::NoLayout)
        } else {
            None
        }
    }

    /// Whether this flag's bit is set in the native flag word `word`.
    pub fn is_set_in(self, word: i32) -> (set: bool)
        ensures
            set == (word & spec_flags_bit(self) != 0),
    {
        word & self.to_raw() != 0
    }
}

/// Every flag comes back unchanged from a round trip through its bit,
/// and a bit that names a flag is the bit of that flag.
pub proof fn lemma_flags_bit_round_trip(flags: Flags, code: i32)
    ensures
        spec_flags_of_bit(spec_flags_bit(flags)) == Some(flags),
        spec_flags_of_bit(code) matches Some(f) ==> spec_flags_bit(f) == code,
{
}

} // verus!
