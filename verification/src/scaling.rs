use vstd::prelude::*;

verus! {

/// The scaling filters to be used with the `minification-filter` and
/// `magnification-filter` properties.
#[derive(Clone, Copy, Debug, PartialEq, Eq, Structural)]
pub enum Filter {
    /// Linear interpolation filter
    Linear,
    /// Nearest neighbor interpolation filter
    Nearest,
    /// Trilinear minification filter, with mipmap generation; this filter
    /// linearly interpolates on every axis, as well as between mipmap levels.
    Trilinear,
}

/// The numeric code under which the native enumeration knows `filter`.
pub open spec fn spec_filter_code(filter: Filter) -> i32 {
    match filter {
        Filter::Linear => 0,
        Filter::Nearest => 1,
        Filter::Trilinear => 2,
    }
}

/// The filter that a native code names, if any.
pub open spec fn spec_filter_of_code(code: i32) -> Option<Filter> {
    if code == 0 {
        Some(Filter::Linear)
    } else if code == 1 {
        Some(Filter::Nearest)
    } else if code == 2 {
        Some(Filter::Trilinear)
    } else {
        None
    }
}

impl Filter {
    /// The code that stands for this filter across the foreign boundary.
    pub fn to_raw(self) -> (code: i32)
        ensures
            code == spec_filter_code(self),
    {
        match self {
            Filter::Linear => 0,
            Filter::Nearest => 1,
            Filter::Trilinear => 2,
        }
    }

    /// Reads a filter back from its native code; `None` for a code the
    /// enumeration does not define.
    pub fn from_raw(code: i32) -> (filter: Option<Filter>)
        ensures
            filter == spec_filter_of_code(code),
    {
        if code == 0 {
            Some(Filter::Linear)
        } else if code == 1 {
            Some(Filter::Nearest)
        } else if code == 2 {
            Some(Filter::Trilinear)
        } else {
            None
        }
    }
}

/// Every filter comes back unchanged from a round trip through its code,
/// and a code that names a filter is the code of that filter.
pub proof fn lemma_filter_code_round_trip(filter: Filter, code: i32)
    ensures
        spec_filter_of_code(spec_filter_code(filter)) == Some(filter),
        spec_filter_of_code(code) matches Some(f) ==> spec_filter_code(f) == code,
{
}

} // verus!
