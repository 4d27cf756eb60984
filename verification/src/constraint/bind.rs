use vstd::prelude::*;

verus! {

/// Specifies which property should be used in a binding.
#[derive(Clone, Copy, Debug, PartialEq, Eq, Structural)]
pub enum Coordinate {
    /// Bind the X coordinate.
    X,
    /// Bind the Y coordinate.
    Y,
    /// Bind the width.
    Width,
    /// Bind the height.
    Height,
    /// Equivalent to X and Y.
    Position,
    /// Equivalent to Width and Height.
    Size,
    /// Equivalent to Position and Size.
    All,
}

/// The numeric code under which the native enumeration keeps `coordinate`.
pub open spec fn spec_coordinate_code(coordinate: Coordinate) -> i32 {
    match coordinate {
        Coordinate::X => 0,
        Coordinate::Y => 1,
        Coordinate::Width => 2,
        Coordinate::Height => 3,
        Coordinate::Position => 4,
        Coordinate::Size => 5,
        Coordinate::All => 6,
    }
}

/// The coordinate that a native code names, if any.
pub open spec fn spec_coordinate_of_code(code: i32) -> Option<Coordinate> {
    if code == 0 {
        Some(Coordinate::X)
    } else if code == 1 {
        Some(Coordinate::Y)
    } else if code == 2 {
        Some(Coordinate::Width)
    } else if code == 3 {
        Some(Coordinate::Height)
    } else if code == 4 {
        Some(Coordinate::Position)
    } else if code == 5 {
        Some(Coordinate::Size)
    } else if code == 6 {
        Some(Coordinate::All)
    } else {
        None
    }
}

impl Coordinate {
    /// The code that stands for this coordinate across the foreign boundary.
    pub fn to_raw(self) -> (code: i32)
        ensures
            code == spec_coordinate_code(self),
    {
        match self {
            Coordinate::X => 0,
            Coordinate::Y => 1,
            Coordinate::Width => 2,
            Coordinate::Height => 3,
            Coordinate::Position => 4,
            Coordinate::Size => 5,
            Coordinate::All => 6,
        }
    }

    /// Reads a coordinate back from its native code; `None` for a code the
    /// enumeration does not define.
    pub fn from_raw(code: i32) -> (coordinate: Option<Coordinate>)
        ensures
            coordinate == spec_coordinate_of_code(code),
    {
        if code == 0 {
            Some(Coordinate::X)
        } else if code == 1 {
            Some(Coordinate::Y)
        } else if code == 2 {
            Some(Coordinate::Width)
        } else if code == 3 {
            Some(Coordinate::Height)
        } else if code == 4 {
            Some(Coordinate::Position)
        } else if code == 5 {
            Some(Coordinate::Size)
        } else if code == 6 {
            Some(Coordinate::All)
        } else {
            None
        }
    }
}

/// Every coordinate comes back unchanged from a round trip through its code,
/// and a code that names a coordinate is the code of that coordinate.
pub proof fn lemma_coordinate_code_round_trip(coordinate: Coordinate, code: i32)
    ensures
        spec_coordinate_of_code(spec_coordinate_code(coordinate)) == Some(coordinate),
        spec_coordinate_of_code(code) matches Some(c) ==> spec_coordinate_code(c) == code,
{
}

} // verus!
