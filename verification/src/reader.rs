//! From the attributes of one slice file to a slice.
//!
//! Reading a slice takes these steps. The bytes of the file are parsed into a
//! data set ([`read_slice_file`] does this and the next two). The attributes
//! are looked up in the data set ([`read_attributes`]). They are checked and
//! the optional ones resolved, which gives a [`DecodedSlice`] with the stored
//! samples as they are ([`decode`]). The caller turns each stored sample into
//! a physical value, stored value times slope plus intercept, and hands the
//! results back ([`DecodedSlice::into_record`]).
//!
//! What the parser makes of bytes and what a data set holds are named in
//! [`crate::dataset`], not written out; the contracts here are exact over
//! those names. [`decode`] takes what was found as plain values and is exact
//! without them.

use vstd::prelude::*;
use crate::dataset::{
    found_number, found_numbers, found_samples, found_uint16, from_reader, held, lookup_number,
    lookup_numbers, lookup_samples, lookup_uint16, parsed, DataSet, Holdings, Lookup,
};
use crate::error::{Field, VolumeError};
use crate::geometry::{Vec2, Vec3};
use crate::scalar::{Scalar, ONE_BITS};
use crate::slice::{Orientation, SliceModel, SliceRecord};

verus! {

/// The attributes of one slice as they were found.
#[derive(Debug)]
pub struct RawAttributes {
    pub columns: Lookup<u16>,
    pub rows: Lookup<u16>,
    pub position: Lookup<Vec<Scalar>>,
    pub slice_location: Lookup<Scalar>,
    pub pixel_spacing: Lookup<Vec<Scalar>>,
    pub orientation: Lookup<Vec<Scalar>>,
    pub rescale_intercept: Lookup<Scalar>,
    pub rescale_slope: Lookup<Scalar>,
    pub pixel_data: Lookup<Vec<i16>>,
}

/// The linear map from stored samples to physical values: stored value times
/// `slope` plus `intercept`.
#[derive(Clone, Copy, Debug, PartialEq, Eq, Structural)]
pub struct Rescale {
    pub slope: Scalar,
    pub intercept: Scalar,
}

/// A slice whose attributes are checked and resolved and whose samples are
/// still the stored integers.
#[derive(Debug)]
pub struct DecodedSlice {
    pub columns: u16,
    pub rows: u16,
    pub slice_location: Scalar,
    pub pixel_spacing_2d: Vec2,
    pub position: Vec3,
    pub orientation: Orientation,
    pub rescale: Rescale,
    pub stored_samples: Vec<i16>,
}

/// What [`RawAttributes`] hold, with what was found as sequences.
pub ghost struct RawModel {
    pub columns: Lookup<u16>,
    pub rows: Lookup<u16>,
    pub position: Lookup<Seq<Scalar>>,
    pub slice_location: Lookup<Scalar>,
    pub pixel_spacing: Lookup<Seq<Scalar>>,
    pub orientation: Lookup<Seq<Scalar>>,
    pub rescale_intercept: Lookup<Scalar>,
    pub rescale_slope: Lookup<Scalar>,
    pub pixel_data: Lookup<Seq<i16>>,
}

impl View for RawAttributes {
    type V = RawModel;

    open spec fn view(&self) -> RawModel {
        RawModel {
            columns: self.columns,
            rows: self.rows,
            position: self.position.as_seq(),
            slice_location: self.slice_location,
            pixel_spacing: self.pixel_spacing.as_seq(),
            orientation: self.orientation.as_seq(),
            rescale_intercept: self.rescale_intercept,
            rescale_slope: self.rescale_slope,
            pixel_data: self.pixel_data.as_seq(),
        }
    }
}

/// What a [`DecodedSlice`] holds, with the stored samples as a sequence.
pub ghost struct DecodedModel {
    pub columns: u16,
    pub rows: u16,
    pub slice_location: Scalar,
    pub pixel_spacing_2d: Vec2,
    pub position: Vec3,
    pub orientation: Orientation,
    pub rescale: Rescale,
    pub stored_samples: Seq<i16>,
}

impl DecodedModel {
    /// The grid is not empty and there is one stored sample for each of its
    /// cells.
    pub open spec fn is_consistent(self) -> bool {
        &&& self.columns > 0
        &&& self.rows > 0
        &&& self.stored_samples.len() == self.columns * self.rows
    }
}

impl View for DecodedSlice {
    type V = DecodedModel;

    open spec fn view(&self) -> DecodedModel {
        DecodedModel {
            columns: self.columns,
            rows: self.rows,
            slice_location: self.slice_location,
            pixel_spacing_2d: self.pixel_spacing_2d,
            position: self.position,
            orientation: self.orientation,
            rescale: self.rescale,
            stored_samples: self.stored_samples@,
        }
    }
}

/// The value of an optional attribute and whether the fallback took its
/// place: the value found where one was found, else the fallback.
pub open spec fn resolved(primary: Lookup<Scalar>, fallback: Scalar) -> (Scalar, bool) {
    match primary {
        Lookup::Present(value) => (value, false),
        _ => (fallback, true),
    }
}

/// Why a required attribute cannot be used, if it cannot.
pub open spec fn required_failure<T>(found: Lookup<T>, field: Field) -> Option<VolumeError> {
    match found {
        Lookup::Absent => Some(VolumeError::MissingField(field)),
        Lookup::Malformed => Some(VolumeError::MalformedField(field)),
        Lookup::Present(_) => None,
    }
}

/// Why a required attribute of several numbers cannot be used, if it cannot:
/// it must hold `count` numbers, or more where `or_more` is set.
pub open spec fn numbers_failure(
    found: Lookup<Seq<Scalar>>,
    field: Field,
    count: nat,
    or_more: bool,
) -> Option<VolumeError> {
    match found {
        Lookup::Absent => Some(VolumeError::MissingField(field)),
        Lookup::Malformed => Some(VolumeError::MalformedField(field)),
        Lookup::Present(values) => if values.len() == count || (or_more && values.len() > count) {
            None
        } else {
            Some(VolumeError::MalformedField(field))
        },
    }
}

/// Why an optional attribute that has no default to fall back on in case of
/// damage cannot be used, if it cannot.
pub open spec fn optional_failure<T>(found: Lookup<T>, field: Field) -> Option<VolumeError> {
    match found {
        Lookup::Malformed => Some(VolumeError::MalformedField(field)),
        _ => None,
    }
}

/// The first of two failures.
pub open spec fn or_else(first: Option<VolumeError>, next: Option<VolumeError>) -> Option<
    VolumeError,
> {
    if first is Some {
        first
    } else {
        next
    }
}

/// Why a grid of `columns` by `rows` with `stored` samples is no grid of a
/// slice, if it is none: a count of zero columns or rows is damage to that
/// attribute, and a number of samples other than columns times rows is damage
/// to the samples.
pub open spec fn grid_failure(columns: u16, rows: u16, stored: nat) -> Option<VolumeError> {
    if columns == 0 {
        Some(VolumeError::MalformedField(Field::Columns))
    } else if rows == 0 {
        Some(VolumeError::MalformedField(Field::Rows))
    } else if stored != columns * rows {
        Some(VolumeError::MalformedField(Field::PixelData))
    } else {
        None
    }
}

/// Why the attributes do not make a slice, if they do not: the first failure
/// among the column count, the row count, the position (three numbers), the
/// slice location (if damaged), the in-plane spacing (two numbers), the
/// orientation (six numbers at least) and the samples, in this order; and
/// where all are there, the failure of the grid that they describe.
pub open spec fn decode_failure(raw: RawModel) -> Option<VolumeError> {
    or_else(
        required_failure(raw.columns, Field::Columns),
        or_else(
            required_failure(raw.rows, Field::Rows),
            or_else(
                numbers_failure(raw.position, Field::ImagePositionPatient, 3, false),
                or_else(
                    optional_failure(raw.slice_location, Field::SliceLocation),
                    or_else(
                        numbers_failure(raw.pixel_spacing, Field::PixelSpacing, 2, false),
                        or_else(
                            numbers_failure(
                                raw.orientation,
                                Field::ImageOrientationPatient,
                                6,
                                true,
                            ),
                            or_else(
                                required_failure(raw.pixel_data, Field::PixelData),
                                grid_failure(
                                    raw.columns.value(),
                                    raw.rows.value(),
                                    raw.pixel_data.value().len(),
                                ),
                            ),
                        ),
                    ),
                ),
            ),
        ),
    )
}

/// The point whose coordinates are three numbers in a row, from `at` on.
pub open spec fn point_at(values: Seq<Scalar>, at: int) -> Vec3 {
    Vec3 { x: values[at], y: values[at + 1], z: values[at + 2] }
}

/// The slice that the attributes describe, where nothing fails.
pub open spec fn decoded_slice(raw: RawModel) -> DecodedModel {
    let position = point_at(raw.position.value(), 0);
    DecodedModel {
        columns: raw.columns.value(),
        rows: raw.rows.value(),
        slice_location: resolved(raw.slice_location, position.z).0,
        pixel_spacing_2d: Vec2 { x: raw.pixel_spacing.value()[0], y: raw.pixel_spacing.value()[1] },
        position,
        orientation: Orientation {
            row: point_at(raw.orientation.value(), 0),
            column: point_at(raw.orientation.value(), 3),
        },
        rescale: Rescale {
            slope: resolved(raw.rescale_slope, Scalar { bits: ONE_BITS }).0,
            intercept: resolved(raw.rescale_intercept, Scalar { bits: 0 }).0,
        },
        stored_samples: raw.pixel_data.value(),
    }
}

/// What decoding makes of the attributes: the failure, or the slice.
pub open spec fn decode_outcome(raw: RawModel) -> Result<DecodedModel, VolumeError> {
    match decode_failure(raw) {
        Some(e) => Err(e),
        None => Ok(decoded_slice(raw)),
    }
}

/// The attributes that the reader looks up in what a data set holds, each
/// under its keyword.
pub open spec fn attributes_of(holdings: Holdings) -> RawModel {
    RawModel {
        columns: found_uint16(holdings, "Columns"@),
        rows: found_uint16(holdings, "Rows"@),
        position: found_numbers(holdings, "ImagePositionPatient"@),
        slice_location: found_number(holdings, "SliceLocation"@),
        pixel_spacing: found_numbers(holdings, "PixelSpacing"@),
        orientation: found_numbers(holdings, "ImageOrientationPatient"@),
        rescale_intercept: found_number(holdings, "RescaleIntercept"@),
        rescale_slope: found_number(holdings, "RescaleSlope"@),
        pixel_data: found_samples(holdings, "PixelData"@),
    }
}

/// What reading makes of the bytes of a file: `FileRead` where they cannot be
/// parsed, else what decoding makes of the attributes of the parsed data set.
pub open spec fn file_outcome(bytes: Seq<u8>) -> Result<DecodedModel, VolumeError> {
    match parsed(bytes) {
        None => Err(VolumeError::FileRead),
        Some(holdings) => decode_outcome(attributes_of(holdings)),
    }
}

/// Gives the value of an optional attribute, or the fallback where none was
/// found, and tells whether the fallback was used.
pub fn resolve(primary: Lookup<Scalar>, fallback: Scalar) -> (r: (Scalar, bool))
    ensures
        r == resolved(primary, fallback),
{
    match primary {
        Lookup::Present(value) => (value, false),
        _ => (fallback, true),
    }
}

fn require_u16(found: Lookup<u16>, field: Field) -> (r: Result<u16, VolumeError>)
    ensures
        match r {
            Ok(value) => required_failure(found, field) is None && value == found.value(),
            Err(e) => required_failure(found, field) == Some(e),
        },
{
    match found {
        Lookup::Absent => Err(VolumeError::MissingField(field)),
        Lookup::Malformed => Err(VolumeError::MalformedField(field)),
        Lookup::Present(value) => Ok(value),
    }
}

fn require_numbers(found: Lookup<Vec<Scalar>>, field: Field, count: usize, or_more: bool) -> (r:
    Result<Vec<Scalar>, VolumeError>)
    ensures
        match r {
            Ok(values) => {
                &&& numbers_failure(found.as_seq(), field, count as nat, or_more) is None
                &&& values@ == found.as_seq().value()
                &&& values@.len() >= count
            },
            Err(e) => numbers_failure(found.as_seq(), field, count as nat, or_more) == Some(e),
        },
{
    match found {
        Lookup::Absent => Err(VolumeError::MissingField(field)),
        Lookup::Malformed => Err(VolumeError::MalformedField(field)),
        Lookup::Present(values) => {
            if values.len() == count || (or_more && values.len() > count) {
                Ok(values)
            } else {
                Err(VolumeError::MalformedField(field))
            }
        },
    }
}

fn point_from(values: &Vec<Scalar>, at: usize) -> (p: Vec3)
    requires
        at + 3 <= values.len(),
    ensures
        p == point_at(values@, at as int),
{
    Vec3 { x: values[at], y: values[at + 1], z: values[at + 2] }
}

/// Tells whether `count` samples are one for each cell of the grid.
fn fills_grid(columns: u16, rows: u16, count: usize) -> (b: bool)
    ensures
        b == (count == columns * rows),
{
    let wide: u64 = columns as u64;
    let high: u64 = rows as u64;
    assert(wide * high <= 0xffff * 0xffff) by (nonlinear_arith)
        requires
            wide <= 0xffff,
            high <= 0xffff,
    ;
    count as u64 == wide * high
}

/// Checks the attributes and resolves the optional ones.
///
/// The slice location falls back on the third coordinate of the position, the
/// intercept on zero and the slope on one. A damaged intercept or slope counts
/// as absent; a damaged slice location is a failure. So is a grid without
/// columns or rows, and a number of samples that is not columns times rows:
/// the slice that comes out has a sample for each cell of a grid that is not
/// empty.
pub fn decode(raw: RawAttributes) -> (r: Result<DecodedSlice, VolumeError>)
    ensures
        match r {
            Ok(slice) => decode_outcome(raw@) == Ok::<DecodedModel, VolumeError>(slice@),
            Err(e) => decode_outcome(raw@) == Err::<DecodedModel, VolumeError>(e),
        },
        r matches Ok(slice) ==> {
            &&& slice@.columns > 0
            &&& slice@.rows > 0
            &&& slice@.stored_samples.len() == slice@.columns * slice@.rows
        },
{
    let RawAttributes {
        columns,
        rows,
        position,
        slice_location,
        pixel_spacing,
        orientation,
        rescale_intercept,
        rescale_slope,
        pixel_data,
    } = raw;
    let columns: u16 = match require_u16(columns, Field::Columns) {
        Ok(value) => value,
        Err(e) => {
            return Err(e);
        },
    };
    let rows: u16 = match require_u16(rows, Field::Rows) {
        Ok(value) => value,
        Err(e) => {
            return Err(e);
        },
    };
    let position: Vec3 = match require_numbers(position, Field::ImagePositionPatient, 3, false) {
        Ok(values) => point_from(&values, 0),
        Err(e) => {
            return Err(e);
        },
    };
    if let Lookup::Malformed = slice_location {
        return Err(VolumeError::MalformedField(Field::SliceLocation));
    }
    let (location, _) = resolve(slice_location, position.z);
    let pixel_spacing_2d: Vec2 = match require_numbers(
        pixel_spacing,
        Field::PixelSpacing,
        2,
        false,
    ) {
        Ok(values) => Vec2 { x: values[0], y: values[1] },
        Err(e) => {
            return Err(e);
        },
    };
    let orientation: Orientation = match require_numbers(
        orientation,
        Field::ImageOrientationPatient,
        6,
        true,
    ) {
        Ok(values) => Orientation { row: point_from(&values, 0), column: point_from(&values, 3) },
        Err(e) => {
            return Err(e);
        },
    };
    let stored_samples: Vec<i16> = match pixel_data {
        Lookup::Absent => {
            return Err(VolumeError::MissingField(Field::PixelData));
        },
        Lookup::Malformed => {
            return Err(VolumeError::MalformedField(Field::PixelData));
        },
        Lookup::Present(values) => values,
    };
    if columns == 0 {
        return Err(VolumeError::MalformedField(Field::Columns));
    }
    if rows == 0 {
        return Err(VolumeError::MalformedField(Field::Rows));
    }
    if !fills_grid(columns, rows, stored_samples.len()) {
        return Err(VolumeError::MalformedField(Field::PixelData));
    }
    let (intercept, _) = resolve(rescale_intercept, Scalar::zero());
    let (slope, _) = resolve(rescale_slope, Scalar::one());
    Ok(
        DecodedSlice {
            columns,
            rows,
            slice_location: location,
            pixel_spacing_2d,
            position,
            orientation,
            rescale: Rescale { slope, intercept },
            stored_samples,
        },
    )
}

/// Looks up in a parsed data set the attributes that make a slice, each under
/// its keyword in the standard dictionary.
pub fn read_attributes(data: &DataSet) -> (raw: RawAttributes)
    ensures
        raw@ == attributes_of(held(*data)),
{
    RawAttributes {
        columns: lookup_uint16(data, "Columns"),
        rows: lookup_uint16(data, "Rows"),
        position: lookup_numbers(data, "ImagePositionPatient"),
        slice_location: lookup_number(data, "SliceLocation"),
        pixel_spacing: lookup_numbers(data, "PixelSpacing"),
        orientation: lookup_numbers(data, "ImageOrientationPatient"),
        rescale_intercept: lookup_number(data, "RescaleIntercept"),
        rescale_slope: lookup_number(data, "RescaleSlope"),
        pixel_data: lookup_samples(data, "PixelData"),
    }
}

/// Reads one slice from a parsed data set, up to the rescaling of its samples:
/// looks the attributes up and decodes them.
pub fn read_slice(data: &DataSet) -> (r: Result<DecodedSlice, VolumeError>)
    ensures
        match r {
            Ok(slice) => decode_outcome(attributes_of(held(*data))) == Ok::<
                DecodedModel,
                VolumeError,
            >(slice@),
            Err(e) => decode_outcome(attributes_of(held(*data))) == Err::<
                DecodedModel,
                VolumeError,
            >(e),
        },
        r matches Ok(slice) ==> slice@.is_consistent(),
{
    decode(read_attributes(data))
}

/// Reads one slice from the bytes of its file, up to the rescaling of its
/// samples: fails with `FileRead` where the bytes cannot be parsed, and else
/// reads the slice from the parsed data set.
pub fn read_slice_file(bytes: &[u8]) -> (r: Result<DecodedSlice, VolumeError>)
    ensures
        match r {
            Ok(slice) => file_outcome(bytes@) == Ok::<DecodedModel, VolumeError>(slice@),
            Err(e) => file_outcome(bytes@) == Err::<DecodedModel, VolumeError>(e),
        },
        r matches Ok(slice) ==> slice@.is_consistent(),
{
    match from_reader(bytes) {
        None => Err(VolumeError::FileRead),
        Some(data) => read_slice(&data),
    }
}

impl DecodedSlice {
    /// Makes the slice of the rescaled samples. They must be as many as the
    /// stored ones, and the stored ones one for each cell of a grid that is
    /// not empty; where they are not, it gives nothing.
    pub fn into_record(self, samples: Vec<Scalar>) -> (r: Option<SliceRecord>)
        ensures
            r is Some <==> self@.is_consistent() && samples@.len() == self@.stored_samples.len(),
            r matches Some(record) ==> record@ == (SliceModel {
                columns: self.columns,
                rows: self.rows,
                slice_location: self.slice_location,
                pixel_spacing_2d: self.pixel_spacing_2d,
                position: self.position,
                orientation: self.orientation,
                samples: samples@,
            }),
            r matches Some(record) ==> record@.is_consistent(),
    {
        if samples.len() != self.stored_samples.len() {
            return None;
        }
        let record = SliceRecord {
            columns: self.columns,
            rows: self.rows,
            slice_location: self.slice_location,
            pixel_spacing_2d: self.pixel_spacing_2d,
            position: self.position,
            orientation: self.orientation,
            samples,
        };
        if !record.consistent() {
            return None;
        }
        Some(record)
    }
}

} // verus!
