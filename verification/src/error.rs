//! Why a slice could not be read or a volume could not be assembled.

use vstd::prelude::*;

verus! {

/// The attributes of a slice over which reading can fail.
#[derive(Clone, Copy, Debug, PartialEq, Eq, Structural)]
pub enum Field {
    Columns,
    Rows,
    ImagePositionPatient,
    SliceLocation,
    PixelSpacing,
    ImageOrientationPatient,
    PixelData,
}

impl Field {
    /// The attribute's keyword in the standard data dictionary.
    pub open spec fn keyword(self) -> Seq<char> {
        match self {
            Field::Columns => "Columns"@,
            Field::Rows => "Rows"@,
            Field::ImagePositionPatient => "ImagePositionPatient"@,
            Field::SliceLocation => "SliceLocation"@,
            Field::PixelSpacing => "PixelSpacing"@,
            Field::ImageOrientationPatient => "ImageOrientationPatient"@,
            Field::PixelData => "PixelData"@,
        }
    }

    pub fn name(self) -> (s: &'static str)
        ensures
            s@ == self.keyword(),
    {
        match self {
            Field::Columns => "Columns",
            Field::Rows => "Rows",
            Field::ImagePositionPatient => "ImagePositionPatient",
            Field::SliceLocation => "SliceLocation",
            Field::PixelSpacing => "PixelSpacing",
            Field::ImageOrientationPatient => "ImageOrientationPatient",
            Field::PixelData => "PixelData",
        }
    }
}

/// The failures of the pipeline. Each is final: nothing is retried and no
/// partial result is handed out.
#[derive(Clone, Copy, Debug, PartialEq, Eq, Structural)]
pub enum VolumeError {
    /// The bytes of a slice file are not a data set that can be parsed.
    FileRead,
    /// A required attribute is absent.
    MissingField(Field),
    /// An attribute is there, but its value cannot be read as the kind of value
    /// it must hold, or holds the wrong number of values.
    MalformedField(Field),
    /// Fewer than two slices were given.
    InsufficientSlices,
    /// A slice's location along the stacking axis is not a number, so the
    /// slices cannot be put in order.
    UnorderedLocation,
    /// The first and the last slice lie at the same point, or the spacing
    /// derived from them is not a finite number above zero.
    DegenerateSpacing,
}

} // verus!
