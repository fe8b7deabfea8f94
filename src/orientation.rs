use vstd::prelude::*;

verus! {

/// The orientation of an image as recorded in TIFF tag 0x112.
///
/// `NoInfo` stands for the value 0 (no orientation recorded); values above 8
/// are kept as `Reserved`.
#[derive(Debug, Clone, Copy, PartialEq, Eq, Structural)]
pub enum Orientation {
    NoInfo,
    Normal,
    FlipHorizontal,
    Rotate180,
    FlipVertical,
    Transpose,
    Rotate90,
    Transverse,
    Rotate270,
    Reserved(u32),
}

/// The orientation that a TIFF tag value denotes.
pub open spec fn orientation_of_tiff(value: u32) -> Orientation {
    if value == 0 {
        Orientation::NoInfo
    } else if value == 1 {
        Orientation::Normal
    } else if value == 2 {
        Orientation::FlipHorizontal
    } else if value == 3 {
        Orientation::Rotate180
    } else if value == 4 {
        Orientation::FlipVertical
    } else if value == 5 {
        Orientation::Transpose
    } else if value == 6 {
        Orientation::Rotate90
    } else if value == 7 {
        Orientation::Transverse
    } else if value == 8 {
        Orientation::Rotate270
    } else {
        Orientation::Reserved(value)
    }
}

/// Whether displaying the image upright turns it by a quarter turn, so that
/// its width and height trade places.
pub open spec fn spec_is_vertical_rotated(o: Orientation) -> bool {
    o == Orientation::Rotate90 || o == Orientation::Rotate270
}

impl Orientation {
    pub fn from_tiff(value: u32) -> (r: Orientation)
        ensures
            r == orientation_of_tiff(value),
    {
        match value {
            0 => Orientation::NoInfo,
            1 => Orientation::Normal,
            2 => Orientation::FlipHorizontal,
            3 => Orientation::Rotate180,
            4 => Orientation::FlipVertical,
            5 => Orientation::Transpose,
            6 => Orientation::Rotate90,
            7 => Orientation::Transverse,
            8 => Orientation::Rotate270,
            other => Orientation::Reserved(other),
        }
    }

    /// The TIFF tag value of this orientation.
    pub fn to_tiff(&self) -> (r: u32)
        ensures
            self.is_well_formed() ==> orientation_of_tiff(r) == *self,
    {
        match self {
            Orientation::NoInfo => 0,
            Orientation::Normal => 1,
            Orientation::FlipHorizontal => 2,
            Orientation::Rotate180 => 3,
            Orientation::FlipVertical => 4,
            Orientation::Transpose => 5,
            Orientation::Rotate90 => 6,
            Orientation::Transverse => 7,
            Orientation::Rotate270 => 8,
            Orientation::Reserved(v) => *v,
        }
    }

    /// A `Reserved` value holds a tag value that no named variant stands for.
    pub open spec fn is_well_formed(&self) -> bool {
        match self {
            Orientation::Reserved(v) => *v > 8,
            _ => true,
        }
    }

    pub fn description(&self) -> (r: &'static str)
        ensures
            r@ == description_of(*self)@,
    {
        match self {
            Orientation::NoInfo => "no orientation info",
            Orientation::Normal => "row 0 at top and column 0 at left",
            Orientation::FlipHorizontal => "row 0 at top and column 0 at right",
            Orientation::Rotate180 => "row 0 at bottom and column 0 at right",
            Orientation::FlipVertical => "row 0 at bottom and column 0 at left",
            Orientation::Transpose => "row 0 at left and column 0 at top",
            Orientation::Rotate90 => "row 0 at right and column 0 at top",
            Orientation::Transverse => "row 0 at right and column 0 at bottom",
            Orientation::Rotate270 => "row 0 at left and column 0 at bottom",
            Orientation::Reserved(_) => "reserved orientation value",
        }
    }

    pub fn is_vertical_rotated(&self) -> (r: bool)
        ensures
            r == spec_is_vertical_rotated(*self),
    {
        match self {
            Orientation::Rotate90 | Orientation::Rotate270 => true,
            _ => false,
        }
    }
}

/// The text that describes each orientation.
pub open spec fn description_of(o: Orientation) -> &'static str {
    match o {
        Orientation::NoInfo => "no orientation info",
        Orientation::Normal => "row 0 at top and column 0 at left",
        Orientation::FlipHorizontal => "row 0 at top and column 0 at right",
        Orientation::Rotate180 => "row 0 at bottom and column 0 at right",
        Orientation::FlipVertical => "row 0 at bottom and column 0 at left",
        Orientation::Transpose => "row 0 at left and column 0 at top",
        Orientation::Rotate90 => "row 0 at right and column 0 at top",
        Orientation::Transverse => "row 0 at right and column 0 at bottom",
        Orientation::Rotate270 => "row 0 at left and column 0 at bottom",
        Orientation::Reserved(_) => "reserved orientation value",
    }
}

} // verus!
