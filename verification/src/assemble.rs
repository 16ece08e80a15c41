//! From a collection of slices to one volume.
//!
//! The work is done in two steps, with the caller's arithmetic between them.
//! [`stack_slices`] orders the slices and joins their samples. From the stack's
//! first and last position and its number of slices the caller derives the
//! step from one slice to the next: its length and its unit direction, a
//! [`StackAxis`]. [`SliceStack::into_volume`] then completes the volume.

use vstd::prelude::*;
use crate::error::VolumeError;
use crate::geometry::{Vec2, Vec3};
use crate::order::{
    is_rearrangement, is_stable_order, key_ints, lemma_rearrangement_covers,
    lemma_stable_order_exists, lemma_stable_order_unique, position_ints, sort_positions,
    stable_order, distinct_keys,
};
use crate::scalar::Scalar;
use crate::slice::{slice_models, Orientation, SliceModel, SliceRecord};

verus! {

/// The slices of a volume in ascending order, their samples joined, before the
/// spacing between them is known.
#[derive(Debug)]
pub struct SliceStack {
    pub columns: u16,
    pub rows: u16,
    /// How many slices were stacked: two at least.
    pub slice_count: usize,
    pub pixel_spacing_2d: Vec2,
    /// The position of the first slice in ascending order.
    pub first_position: Vec3,
    /// The position of the last slice in ascending order.
    pub last_position: Vec3,
    pub orientation: Orientation,
    pub voxels: Vec<Scalar>,
}

/// What a [`SliceStack`] holds, with the samples as a sequence.
pub ghost struct StackModel {
    pub columns: u16,
    pub rows: u16,
    pub slice_count: nat,
    pub pixel_spacing_2d: Vec2,
    pub first_position: Vec3,
    pub last_position: Vec3,
    pub orientation: Orientation,
    pub voxels: Seq<Scalar>,
}

impl View for SliceStack {
    type V = StackModel;

    open spec fn view(&self) -> StackModel {
        StackModel {
            columns: self.columns,
            rows: self.rows,
            slice_count: self.slice_count as nat,
            pixel_spacing_2d: self.pixel_spacing_2d,
            first_position: self.first_position,
            last_position: self.last_position,
            orientation: self.orientation,
            voxels: self.voxels@,
        }
    }
}

/// The step from one slice to the next, as the caller derived it: the
/// displacement from the first position to the last, divided by the number of
/// slices less one, given as its length and its unit direction.
#[derive(Clone, Copy, Debug, PartialEq, Eq, Structural)]
pub struct StackAxis {
    pub spacing: Scalar,
    pub direction: Vec3,
}

impl StackAxis {
    /// The length is a finite number above zero and the direction is finite.
    pub open spec fn is_usable(self) -> bool {
        self.spacing.is_positive_finite() && self.direction.is_finite()
    }

    pub fn usable(self) -> (b: bool)
        ensures
            b == self.is_usable(),
    {
        self.spacing.positive_finite() && self.direction.finite()
    }
}

/// The three unit directions of a volume's axes.
#[derive(Clone, Copy, Debug, PartialEq, Eq, Structural)]
pub struct Basis {
    pub row: Vec3,
    pub column: Vec3,
    pub stacking: Vec3,
}

/// A dense grid of samples in space.
#[derive(Debug)]
pub struct ImageVolume {
    pub columns: u16,
    pub rows: u16,
    pub slice_count: usize,
    /// The distance between samples along the three axes.
    pub voxel_spacing: Vec3,
    /// The point in space of the first slice's first sample.
    pub origin: Vec3,
    pub orientation_basis: Basis,
    /// The samples, row after row, slice after slice.
    pub voxels: Vec<Scalar>,
}

/// What an [`ImageVolume`] holds, with the samples as a sequence.
pub ghost struct VolumeModel {
    pub columns: u16,
    pub rows: u16,
    pub slice_count: nat,
    pub voxel_spacing: Vec3,
    pub origin: Vec3,
    pub orientation_basis: Basis,
    pub voxels: Seq<Scalar>,
}

impl View for ImageVolume {
    type V = VolumeModel;

    open spec fn view(&self) -> VolumeModel {
        VolumeModel {
            columns: self.columns,
            rows: self.rows,
            slice_count: self.slice_count as nat,
            voxel_spacing: self.voxel_spacing,
            origin: self.origin,
            orientation_basis: self.orientation_basis,
            voxels: self.voxels@,
        }
    }
}

/// The keys by which the slices are ordered: those of their locations.
pub open spec fn location_keys(slices: Seq<SliceModel>) -> Seq<int> {
    Seq::new(slices.len(), |i: int| slices[i].slice_location.key())
}

/// Some slice's location is not a number.
pub open spec fn has_unordered_location(slices: Seq<SliceModel>) -> bool {
    exists|i: int| 0 <= i < slices.len() && (#[trigger] slices[i]).slice_location.is_nan()
}

/// The slices in ascending order of location; slices at the same location
/// keep the order in which they were given.
pub open spec fn in_stack_order(slices: Seq<SliceModel>) -> Seq<SliceModel> {
    let order = stable_order(location_keys(slices));
    Seq::new(slices.len(), |k: int| slices[order[k]])
}

/// The samples of the slices, one slice after the other.
pub open spec fn joined_samples(slices: Seq<SliceModel>) -> Seq<Scalar>
    decreases slices.len(),
{
    if slices.len() == 0 {
        Seq::empty()
    } else {
        joined_samples(slices.drop_last()) + slices.last().samples
    }
}

/// The stack of slices that are already in ascending order.
pub open spec fn stack_of_ordered(ordered: Seq<SliceModel>) -> StackModel
    recommends
        ordered.len() >= 1,
{
    StackModel {
        columns: ordered.first().columns,
        rows: ordered.first().rows,
        slice_count: ordered.len(),
        pixel_spacing_2d: ordered.first().pixel_spacing_2d,
        first_position: ordered.first().position,
        last_position: ordered.last().position,
        orientation: ordered.first().orientation,
        voxels: joined_samples(ordered),
    }
}

/// What stacking makes of the slices: the failure, or the stack. The grid, the
/// in-plane spacing and the orientation are those of the first slice in
/// ascending order; the other slices are not held against them.
pub open spec fn stack_of(slices: Seq<SliceModel>) -> Result<StackModel, VolumeError> {
    if slices.len() < 2 {
        Err(VolumeError::InsufficientSlices)
    } else if has_unordered_location(slices) {
        Err(VolumeError::UnorderedLocation)
    } else {
        let ordered = in_stack_order(slices);
        if ordered.first().position.same_point(ordered.last().position) {
            Err(VolumeError::DegenerateSpacing)
        } else {
            Ok(stack_of_ordered(ordered))
        }
    }
}

/// What completing a stack with an axis makes: the failure, or the volume.
pub open spec fn volume_of(stack: StackModel, axis: StackAxis) -> Result<VolumeModel, VolumeError> {
    if !axis.is_usable() {
        Err(VolumeError::DegenerateSpacing)
    } else {
        Ok(
            VolumeModel {
                columns: stack.columns,
                rows: stack.rows,
                slice_count: stack.slice_count,
                voxel_spacing: Vec3 {
                    x: stack.pixel_spacing_2d.x,
                    y: stack.pixel_spacing_2d.y,
                    z: axis.spacing,
                },
                origin: stack.first_position,
                orientation_basis: Basis {
                    row: stack.orientation.row,
                    column: stack.orientation.column,
                    stacking: axis.direction,
                },
                voxels: stack.voxels,
            },
        )
    }
}

/// Orders the slices by location and joins their samples.
///
/// Fails with `InsufficientSlices` on fewer than two slices; else with
/// `UnorderedLocation` where a location is not a number; else with
/// `DegenerateSpacing` where the first and the last slice in ascending order
/// lie at the same point.
pub fn stack_slices(records: &Vec<SliceRecord>) -> (r: Result<SliceStack, VolumeError>)
    ensures
        match r {
            Ok(stack) => stack_of(slice_models(records@)) == Ok::<StackModel, VolumeError>(stack@),
            Err(e) => stack_of(slice_models(records@)) == Err::<StackModel, VolumeError>(e),
        },
{
    let n: usize = records.len();
    let ghost slices = slice_models(records@);
    if n < 2 {
        return Err(VolumeError::InsufficientSlices);
    }
    let mut keys: Vec<i64> = Vec::new();
    let mut i: usize = 0;
    while i < n
        invariant
            n == records.len(),
            n >= 2,
            slices == slice_models(records@),
            i <= n,
            keys.len() == i,
            forall|j: int| 0 <= j < i ==> #[trigger] keys[j] == slices[j].slice_location.key(),
            forall|j: int| 0 <= j < i ==> !(#[trigger] slices[j]).slice_location.is_nan(),
        decreases n - i,
    {
        let location: Scalar = records[i].slice_location;
        if location.nan() {
            assert(slices[i as int].slice_location.is_nan());
            return Err(VolumeError::UnorderedLocation);
        }
        keys.push(location.order_key());
        i = i + 1;
    }
    assert(key_ints(keys@) =~= location_keys(slices));
    let order: Vec<usize> = sort_positions(&keys);
    let ghost ordered = in_stack_order(slices);
    assert forall|k: int| 0 <= k < n implies #[trigger] ordered[k] == records[order[k] as int]@ by {
        assert(position_ints(order@)[k] == order[k]);
    }
    let first: &SliceRecord = &records[order[0]];
    let last: &SliceRecord = &records[order[n - 1]];
    assert(first@ == ordered.first());
    assert(last@ == ordered.last());
    if first.position.equals_point(last.position) {
        return Err(VolumeError::DegenerateSpacing);
    }
    let mut voxels: Vec<Scalar> = Vec::new();
    let mut k: usize = 0;
    while k < n
        invariant
            n == records.len(),
            order.len() == n,
            k <= n,
            ordered.len() == n,
            forall|q: int| 0 <= q < order.len() ==> #[trigger] order[q] < n,
            forall|q: int| 0 <= q < n ==> #[trigger] ordered[q] == records[order[q] as int]@,
            voxels@ == joined_samples(ordered.take(k as int)),
        decreases n - k,
    {
        let record: &SliceRecord = &records[order[k]];
        let count: usize = record.samples.len();
        let ghost joined = voxels@;
        let mut j: usize = 0;
        while j < count
            invariant
                count == record.samples.len(),
                j <= count,
                voxels@ == joined + record.samples@.take(j as int),
            decreases count - j,
        {
            voxels.push(record.samples[j]);
            assert(record.samples@.take(j + 1) =~= record.samples@.take(j as int).push(
                record.samples@[j as int],
            ));
            j = j + 1;
        }
        proof {
            assert(record.samples@.take(count as int) =~= record.samples@);
            let upto = ordered.take(k + 1);
            assert(upto.drop_last() =~= ordered.take(k as int));
            assert(upto.last() == record@);
        }
        k = k + 1;
    }
    assert(ordered.take(n as int) =~= ordered);
    Ok(
        SliceStack {
            columns: first.columns,
            rows: first.rows,
            slice_count: n,
            pixel_spacing_2d: first.pixel_spacing_2d,
            first_position: first.position,
            last_position: last.position,
            orientation: first.orientation,
            voxels,
        },
    )
}

impl SliceStack {
    /// How many steps lie between the first slice and the last.
    pub fn steps(&self) -> (n: usize)
        ensures
            n == if self@.slice_count >= 1 {
                self@.slice_count - 1
            } else {
                0
            },
    {
        if self.slice_count >= 1 {
            self.slice_count - 1
        } else {
            0
        }
    }

    /// Completes the volume with the step between slices.
    ///
    /// Fails with `DegenerateSpacing` unless the step's length is a finite
    /// number above zero and its direction is finite.
    pub fn into_volume(self, axis: StackAxis) -> (r: Result<ImageVolume, VolumeError>)
        ensures
            match r {
                Ok(volume) => volume_of(self@, axis) == Ok::<VolumeModel, VolumeError>(volume@),
                Err(e) => volume_of(self@, axis) == Err::<VolumeModel, VolumeError>(e),
            },
    {
        if !axis.usable() {
            return Err(VolumeError::DegenerateSpacing);
        }
        Ok(
            ImageVolume {
                columns: self.columns,
                rows: self.rows,
                slice_count: self.slice_count,
                voxel_spacing: Vec3 {
                    x: self.pixel_spacing_2d.x,
                    y: self.pixel_spacing_2d.y,
                    z: axis.spacing,
                },
                origin: self.first_position,
                orientation_basis: Basis {
                    row: self.orientation.row,
                    column: self.orientation.column,
                    stacking: axis.direction,
                },
                voxels: self.voxels,
            },
        )
    }
}

/// Every slice has the same grid, and a sample for each cell of it.
pub open spec fn is_uniform(slices: Seq<SliceModel>) -> bool {
    forall|i: int|
        0 <= i < slices.len() ==> {
            &&& (#[trigger] slices[i]).is_consistent()
            &&& slices[i].columns == slices[0].columns
            &&& slices[i].rows == slices[0].rows
        }
}

/// `given` holds the slices of `slices` in another order: slice `i` of `given`
/// is slice `perm[i]` of `slices`.
pub open spec fn is_reordering(
    slices: Seq<SliceModel>,
    given: Seq<SliceModel>,
    perm: Seq<int>,
) -> bool {
    &&& given.len() == slices.len()
    &&& is_rearrangement(perm, slices.len() as int)
    &&& forall|i: int| 0 <= i < given.len() ==> #[trigger] given[i] == slices[perm[i]]
}

/// To know the slices in ascending order it is enough to know a stable order
/// of their locations: the ordering follows it.
pub proof fn lemma_stack_order_follows(slices: Seq<SliceModel>, order: Seq<int>)
    requires
        is_stable_order(location_keys(slices), order),
    ensures
        in_stack_order(slices) == Seq::new(slices.len(), |k: int| slices[order[k]]),
{
    lemma_stable_order_exists(location_keys(slices));
    lemma_stable_order_unique(location_keys(slices), order, stable_order(location_keys(slices)));
}

/// Slices that are given in ascending order of location are stacked in the
/// order given.
pub proof fn lemma_ordered_slices_stay(slices: Seq<SliceModel>)
    requires
        forall|i: int, j: int|
            0 <= i < j < slices.len() ==> (#[trigger] slices[i]).slice_location.key()
                <= (#[trigger] slices[j]).slice_location.key(),
    ensures
        in_stack_order(slices) == slices,
{
    let keys = location_keys(slices);
    let as_given = Seq::new(slices.len(), |i: int| i);
    assert forall|i: int, j: int| 0 <= i < j < as_given.len() implies crate::order::precedes(
        keys,
        #[trigger] as_given[i],
        #[trigger] as_given[j],
    ) by {
        assert(slices[i].slice_location.key() <= slices[j].slice_location.key());
    }
    lemma_stable_order_exists(keys);
    lemma_stable_order_unique(keys, as_given, stable_order(keys));
    assert(in_stack_order(slices) =~= slices);
}

/// Slices that each hold `cells` samples hold `cells` times their number when
/// joined.
pub proof fn lemma_joined_length(slices: Seq<SliceModel>, cells: nat)
    requires
        forall|i: int| 0 <= i < slices.len() ==> (#[trigger] slices[i]).samples.len() == cells,
    ensures
        joined_samples(slices).len() == slices.len() * cells,
    decreases slices.len(),
{
    if slices.len() > 0 {
        let head = slices.drop_last();
        assert forall|i: int| 0 <= i < head.len() implies (#[trigger] head[i]).samples.len()
            == cells by {
            assert(head[i] == slices[i]);
        }
        lemma_joined_length(head, cells);
        assert(slices.last().samples.len() == cells);
        assert((slices.len() - 1) * cells + cells == slices.len() * cells) by (nonlinear_arith);
    } else {
        assert(0 * cells == 0);
    }
}

/// The slices in ascending order are the given slices, each once: slice `k`
/// of the order is the slice at position `stable_order(..)[k]`, a position
/// among the given ones.
pub proof fn lemma_stack_order_positions(slices: Seq<SliceModel>)
    ensures
        is_stable_order(location_keys(slices), stable_order(location_keys(slices))),
        in_stack_order(slices).len() == slices.len(),
        forall|k: int|
            0 <= k < slices.len() ==> {
                &&& 0 <= stable_order(location_keys(slices))[k] < slices.len()
                &&& #[trigger] in_stack_order(slices)[k] == slices[stable_order(
                    location_keys(slices),
                )[k]]
            },
        forall|i: int, j: int|
            0 <= i < j < slices.len() ==> (#[trigger] in_stack_order(
                slices,
            )[i]).slice_location.key() <= (#[trigger] in_stack_order(slices)[j]).slice_location.key(),
{
    let keys = location_keys(slices);
    lemma_stable_order_exists(keys);
    let order = stable_order(keys);
    assert forall|i: int, j: int| 0 <= i < j < slices.len() implies (#[trigger] in_stack_order(
        slices,
    )[i]).slice_location.key() <= (#[trigger] in_stack_order(slices)[j]).slice_location.key() by {
        assert(crate::order::precedes(keys, order[i], order[j]));
    }
}

/// A volume of uniform slices holds columns times rows times slices samples:
/// where two or more slices with locations that are numbers share one grid and
/// each has a sample for every cell, stacking fails only for want of spacing,
/// and the stack it gives has that many samples.
pub proof fn lemma_uniform_stack_length(slices: Seq<SliceModel>)
    requires
        slices.len() >= 2,
        !has_unordered_location(slices),
        is_uniform(slices),
    ensures
        match stack_of(slices) {
            Ok(stack) => {
                &&& stack.voxels.len() == stack.columns * stack.rows * slices.len()
                &&& stack.columns == slices[0].columns
                &&& stack.rows == slices[0].rows
                &&& stack.slice_count == slices.len()
            },
            Err(e) => e == VolumeError::DegenerateSpacing,
        },
{
    lemma_stack_order_positions(slices);
    let ordered = in_stack_order(slices);
    let cells = (slices[0].columns * slices[0].rows) as nat;
    assert forall|k: int| 0 <= k < ordered.len() implies (#[trigger] ordered[k]).samples.len()
        == cells by {
        let at = stable_order(location_keys(slices))[k];
        assert(slices[at].is_consistent());
    }
    lemma_joined_length(ordered, cells);
    let at = stable_order(location_keys(slices))[0];
    assert(slices[at].is_consistent());
    assert(ordered.first() == slices[at]);
    assert(ordered.len() * cells == slices[0].columns * slices[0].rows * slices.len())
        by (nonlinear_arith)
        requires
            ordered.len() == slices.len(),
            cells == slices[0].columns * slices[0].rows,
    ;
}

/// The order in which slices are given does not matter where no two lie at the
/// same location: the slices taken in any other order, front to back or back
/// to front among them, come out of the ordering the same, and so does the
/// stack made of them or the failure.
pub proof fn lemma_stack_ignores_given_order(
    slices: Seq<SliceModel>,
    given: Seq<SliceModel>,
    perm: Seq<int>,
)
    requires
        is_reordering(slices, given, perm),
        distinct_keys(location_keys(slices)),
    ensures
        in_stack_order(given) == in_stack_order(slices),
        stack_of(given) == stack_of(slices),
{
    let n = slices.len() as int;
    let keys = location_keys(slices);
    let given_keys = location_keys(given);
    lemma_stable_order_exists(keys);
    lemma_stable_order_exists(given_keys);
    let order = stable_order(keys);
    let given_order = stable_order(given_keys);
    let through = Seq::new(slices.len(), |k: int| perm[given_order[k]]);
    assert forall|i: int, j: int| 0 <= i < j < n implies crate::order::precedes(
        keys,
        #[trigger] through[i],
        #[trigger] through[j],
    ) by {
        let a = given_order[i];
        let b = given_order[j];
        assert(crate::order::precedes(given_keys, a, b));
        assert(a != b);
        assert(given[a] == slices[perm[a]] && given[b] == slices[perm[b]]);
        assert(given_keys[a] == keys[perm[a]] && given_keys[b] == keys[perm[b]]);
        if a < b {
            assert(perm[a] != perm[b]);
        } else {
            assert(perm[b] != perm[a]);
        }
        if perm[a] < perm[b] {
            assert(keys[perm[a]] != keys[perm[b]]);
        } else {
            assert(keys[perm[b]] != keys[perm[a]]);
        }
    }
    assert(is_stable_order(keys, through));
    lemma_stable_order_unique(keys, through, order);
    assert(in_stack_order(given) =~= in_stack_order(slices)) by {
        assert forall|k: int| 0 <= k < n implies in_stack_order(given)[k] == in_stack_order(
            slices,
        )[k] by {
            assert(given[given_order[k]] == slices[perm[given_order[k]]]);
            assert(through[k] == order[k]);
        }
    }
    assert(has_unordered_location(given) == has_unordered_location(slices)) by {
        if has_unordered_location(given) {
            let i = choose|i: int|
                0 <= i < given.len() && (#[trigger] given[i]).slice_location.is_nan();
            assert(slices[perm[i]].slice_location.is_nan());
        }
        if has_unordered_location(slices) {
            let v = choose|v: int|
                0 <= v < slices.len() && (#[trigger] slices[v]).slice_location.is_nan();
            lemma_rearrangement_covers(perm, n, v);
            let i = choose|i: int| 0 <= i < n && perm[i] == v;
            assert(given[i].slice_location.is_nan());
        }
    }
}

/// In particular, slices given in ascending order and the same slices given
/// back to front make the same stack.
pub proof fn lemma_reversed_slices_stack_alike(slices: Seq<SliceModel>)
    requires
        distinct_keys(location_keys(slices)),
    ensures
        in_stack_order(slices.reverse()) == in_stack_order(slices),
        stack_of(slices.reverse()) == stack_of(slices),
{
    let n = slices.len() as int;
    let perm = Seq::new(slices.len(), |i: int| n - 1 - i);
    assert(is_reordering(slices, slices.reverse(), perm));
    lemma_stack_ignores_given_order(slices, slices.reverse(), perm);
}

/// Tells whether every slice has the same grid and a sample for each cell of
/// it. Stacking does not ask for this; a caller who wants it asks here.
pub fn uniform(records: &Vec<SliceRecord>) -> (b: bool)
    ensures
        b == is_uniform(slice_models(records@)),
{
    let n: usize = records.len();
    let ghost slices = slice_models(records@);
    let mut i: usize = 0;
    while i < n
        invariant
            n == records.len(),
            slices == slice_models(records@),
            i <= n,
            forall|j: int|
                0 <= j < i ==> {
                    &&& (#[trigger] slices[j]).is_consistent()
                    &&& slices[j].columns == slices[0].columns
                    &&& slices[j].rows == slices[0].rows
                },
        decreases n - i,
    {
        let record: &SliceRecord = &records[i];
        let first: &SliceRecord = &records[0];
        assert(slices[i as int] == record@ && slices[0] == first@);
        if !record.consistent() || record.columns != first.columns || record.rows != first.rows {
            return false;
        }
        i = i + 1;
    }
    true
}

} // verus!
