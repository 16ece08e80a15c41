//! One cross-sectional image with its place in space.

use vstd::prelude::*;
use crate::geometry::{Vec2, Vec3};
use crate::scalar::Scalar;

verus! {

/// The two unit directions that span the plane of a slice.
#[derive(Clone, Copy, Debug, PartialEq, Eq, Structural)]
pub struct Orientation {
    /// The direction in which the columns advance along a row.
    pub row: Vec3,
    /// The direction in which the rows advance along a column.
    pub column: Vec3,
}

/// One slice: a grid of samples in physical units, row after row, with the
/// geometry that places the grid in space.
#[derive(Clone, Debug)]
pub struct SliceRecord {
    pub columns: u16,
    pub rows: u16,
    /// Where the slice lies along the stacking axis; slices are ordered by it.
    pub slice_location: Scalar,
    /// The distance between sample centres along the two in-plane axes.
    pub pixel_spacing_2d: Vec2,
    /// The point in space of the slice's first sample.
    pub position: Vec3,
    pub orientation: Orientation,
    pub samples: Vec<Scalar>,
}

/// What a [`SliceRecord`] holds, with the samples as a sequence.
pub ghost struct SliceModel {
    pub columns: u16,
    pub rows: u16,
    pub slice_location: Scalar,
    pub pixel_spacing_2d: Vec2,
    pub position: Vec3,
    pub orientation: Orientation,
    pub samples: Seq<Scalar>,
}

impl SliceModel {
    /// The grid is not empty and there is one sample for each of its cells.
    pub open spec fn is_consistent(self) -> bool {
        &&& self.columns > 0
        &&& self.rows > 0
        &&& self.samples.len() == self.columns * self.rows
    }
}

impl View for SliceRecord {
    type V = SliceModel;

    open spec fn view(&self) -> SliceModel {
        SliceModel {
            columns: self.columns,
            rows: self.rows,
            slice_location: self.slice_location,
            pixel_spacing_2d: self.pixel_spacing_2d,
            position: self.position,
            orientation: self.orientation,
            samples: self.samples@,
        }
    }
}

impl SliceRecord {
    /// Tells whether the grid is not empty and has one sample for each cell.
    pub fn consistent(&self) -> (b: bool)
        ensures
            b == self@.is_consistent(),
    {
        let columns: u64 = self.columns as u64;
        let rows: u64 = self.rows as u64;
        assert(columns * rows <= 0xffff * 0xffff) by (nonlinear_arith)
            requires
                columns <= 0xffff,
                rows <= 0xffff,
        ;
        let cells: u64 = columns * rows;
        self.columns > 0 && self.rows > 0 && self.samples.len() as u64 == cells
    }
}

/// The models of a sequence of records, one for one.
pub open spec fn slice_models(records: Seq<SliceRecord>) -> Seq<SliceModel> {
    Seq::new(records.len(), |i: int| records[i]@)
}

} // verus!
