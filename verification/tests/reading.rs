use slice_volume::dataset::Lookup;
use slice_volume::error::{Field, VolumeError};
use slice_volume::geometry::{Vec2, Vec3};
use slice_volume::reader::{decode, resolve, RawAttributes, Rescale};
use slice_volume::scalar::Scalar;
use slice_volume::slice::Orientation;

fn s(x: f32) -> Scalar {
    Scalar::from_bits(x.to_bits())
}

fn numbers(xs: &[f32]) -> Lookup<Vec<Scalar>> {
    Lookup::Present(xs.iter().map(|&x| s(x)).collect())
}

fn complete() -> RawAttributes {
    RawAttributes {
        columns: Lookup::Present(2),
        rows: Lookup::Present(3),
        position: numbers(&[-10.0, 20.0, 30.5]),
        slice_location: Lookup::Present(s(42.0)),
        pixel_spacing: numbers(&[0.5, 0.25]),
        orientation: numbers(&[1.0, 0.0, 0.0, 0.0, 0.0, -1.0]),
        rescale_intercept: Lookup::Present(s(-100.0)),
        rescale_slope: Lookup::Present(s(2.0)),
        pixel_data: Lookup::Present(vec![0, 1, -1, 1000, i16::MAX, i16::MIN]),
    }
}

#[test]
fn complete_attributes_decode() {
    let slice = decode(complete()).unwrap();
    assert_eq!(slice.columns, 2);
    assert_eq!(slice.rows, 3);
    assert_eq!(slice.position, Vec3 { x: s(-10.0), y: s(20.0), z: s(30.5) });
    assert_eq!(slice.slice_location, s(42.0));
    assert_eq!(slice.pixel_spacing_2d, Vec2 { x: s(0.5), y: s(0.25) });
    assert_eq!(
        slice.orientation,
        Orientation {
            row: Vec3 { x: s(1.0), y: s(0.0), z: s(0.0) },
            column: Vec3 { x: s(0.0), y: s(0.0), z: s(-1.0) },
        }
    );
    assert_eq!(slice.rescale, Rescale { slope: s(2.0), intercept: s(-100.0) });
    assert_eq!(slice.stored_samples, vec![0, 1, -1, 1000, i16::MAX, i16::MIN]);
}

#[test]
fn slope_and_intercept_are_carried_as_found() {
    let slice = decode(complete()).unwrap();
    assert_eq!(slice.rescale.slope.to_bits(), 2.0f32.to_bits());
    assert_eq!(slice.rescale.intercept.to_bits(), (-100.0f32).to_bits());
}

#[test]
fn absent_rescale_resolves_to_one_and_zero() {
    let mut raw = complete();
    raw.rescale_intercept = Lookup::Absent;
    raw.rescale_slope = Lookup::Absent;
    let slice = decode(raw).unwrap();
    assert_eq!(slice.rescale.slope.to_bits(), 1.0f32.to_bits());
    assert_eq!(slice.rescale.intercept.to_bits(), 0);
    assert_eq!(slice.stored_samples, vec![0, 1, -1, 1000, i16::MAX, i16::MIN]);
}

#[test]
fn record_keeps_the_samples_handed_in() {
    let slice = decode(complete()).unwrap();
    let samples = vec![s(-100.0), s(-98.0), s(-102.0), s(1900.0), s(65434.0), s(-65636.0)];
    let record = slice.into_record(samples.clone()).unwrap();
    assert_eq!(record.samples, samples);
    assert!(record.consistent());
}

#[test]
fn grid_without_columns_is_damage() {
    let mut raw = complete();
    raw.columns = Lookup::Present(0);
    assert_eq!(decode(raw).err(), Some(VolumeError::MalformedField(Field::Columns)));
    let mut raw = complete();
    raw.columns = Lookup::Present(0);
    raw.rows = Lookup::Present(0);
    raw.pixel_data = Lookup::Present(vec![]);
    assert_eq!(decode(raw).err(), Some(VolumeError::MalformedField(Field::Columns)));
}

#[test]
fn grid_without_rows_is_damage() {
    let mut raw = complete();
    raw.rows = Lookup::Present(0);
    assert_eq!(decode(raw).err(), Some(VolumeError::MalformedField(Field::Rows)));
    let mut raw = complete();
    raw.rows = Lookup::Present(0);
    raw.pixel_data = Lookup::Present(vec![]);
    assert_eq!(decode(raw).err(), Some(VolumeError::MalformedField(Field::Rows)));
}

#[test]
fn samples_that_do_not_fill_the_grid_are_damage() {
    let mut raw = complete();
    raw.pixel_data = Lookup::Present(vec![1, 2, 3, 4, 5]);
    assert_eq!(decode(raw).err(), Some(VolumeError::MalformedField(Field::PixelData)));
    let mut raw = complete();
    raw.pixel_data = Lookup::Present(vec![1, 2, 3, 4, 5, 6, 7]);
    assert_eq!(decode(raw).err(), Some(VolumeError::MalformedField(Field::PixelData)));
    let mut raw = complete();
    raw.pixel_data = Lookup::Present(vec![]);
    assert_eq!(decode(raw).err(), Some(VolumeError::MalformedField(Field::PixelData)));
    let mut raw = complete();
    raw.columns = Lookup::Present(2);
    raw.rows = Lookup::Present(2);
    raw.pixel_data = Lookup::Present(vec![1, 2, 3]);
    assert_eq!(decode(raw).err(), Some(VolumeError::MalformedField(Field::PixelData)));
}

#[test]
fn largest_grid_is_counted_without_wrapping() {
    let mut raw = complete();
    raw.columns = Lookup::Present(u16::MAX);
    raw.rows = Lookup::Present(u16::MAX);
    raw.pixel_data = Lookup::Present(vec![0; 1]);
    assert_eq!(decode(raw).err(), Some(VolumeError::MalformedField(Field::PixelData)));
    let mut raw = complete();
    raw.columns = Lookup::Present(300);
    raw.rows = Lookup::Present(300);
    raw.pixel_data = Lookup::Present(vec![0; 90000]);
    let slice = decode(raw).unwrap();
    assert_eq!(slice.stored_samples.len(), 90000);
}

#[test]
fn the_grid_is_held_against_the_samples_last() {
    let mut raw = complete();
    raw.columns = Lookup::Present(0);
    raw.position = Lookup::Absent;
    assert_eq!(decode(raw).err(), Some(VolumeError::MissingField(Field::ImagePositionPatient)));
    let mut raw = complete();
    raw.rows = Lookup::Present(0);
    raw.pixel_data = Lookup::Absent;
    assert_eq!(decode(raw).err(), Some(VolumeError::MissingField(Field::PixelData)));
}

#[test]
fn decoded_slice_with_a_broken_grid_makes_no_record() {
    let mut slice = decode(complete()).unwrap();
    slice.columns = 0;
    assert!(slice.into_record(vec![s(1.0); 6]).is_none());
    let mut slice = decode(complete()).unwrap();
    slice.rows = 4;
    assert!(slice.into_record(vec![s(1.0); 6]).is_none());
    let mut slice = decode(complete()).unwrap();
    slice.stored_samples.push(0);
    assert!(slice.into_record(vec![s(1.0); 7]).is_none());
}

#[test]
fn damaged_rescale_counts_as_absent() {
    let mut raw = complete();
    raw.rescale_intercept = Lookup::Malformed;
    raw.rescale_slope = Lookup::Malformed;
    let slice = decode(raw).unwrap();
    assert_eq!(slice.rescale, Rescale { slope: s(1.0), intercept: s(0.0) });
    let mut raw = complete();
    raw.rescale_slope = Lookup::Malformed;
    let slice = decode(raw).unwrap();
    assert_eq!(slice.rescale, Rescale { slope: s(1.0), intercept: s(-100.0) });
}

#[test]
fn absent_slice_location_falls_back_on_the_position() {
    let mut raw = complete();
    raw.slice_location = Lookup::Absent;
    let slice = decode(raw).unwrap();
    assert_eq!(slice.slice_location, s(30.5));
}

#[test]
fn damaged_slice_location_is_a_failure() {
    let mut raw = complete();
    raw.slice_location = Lookup::Malformed;
    assert_eq!(decode(raw).err(), Some(VolumeError::MalformedField(Field::SliceLocation)));
}

#[test]
fn missing_position_is_named() {
    let mut raw = complete();
    raw.position = Lookup::Absent;
    let e = decode(raw).err().unwrap();
    assert_eq!(e, VolumeError::MissingField(Field::ImagePositionPatient));
    match e {
        VolumeError::MissingField(field) => assert_eq!(field.name(), "ImagePositionPatient"),
        _ => panic!("another failure"),
    }
}

#[test]
fn each_missing_field_is_named() {
    let mut raw = complete();
    raw.columns = Lookup::Absent;
    assert_eq!(decode(raw).err(), Some(VolumeError::MissingField(Field::Columns)));
    let mut raw = complete();
    raw.rows = Lookup::Absent;
    assert_eq!(decode(raw).err(), Some(VolumeError::MissingField(Field::Rows)));
    let mut raw = complete();
    raw.pixel_spacing = Lookup::Absent;
    assert_eq!(decode(raw).err(), Some(VolumeError::MissingField(Field::PixelSpacing)));
    let mut raw = complete();
    raw.orientation = Lookup::Absent;
    assert_eq!(decode(raw).err(), Some(VolumeError::MissingField(Field::ImageOrientationPatient)));
    let mut raw = complete();
    raw.pixel_data = Lookup::Absent;
    assert_eq!(decode(raw).err(), Some(VolumeError::MissingField(Field::PixelData)));
}

#[test]
fn each_damaged_field_is_named() {
    let mut raw = complete();
    raw.columns = Lookup::Malformed;
    assert_eq!(decode(raw).err(), Some(VolumeError::MalformedField(Field::Columns)));
    let mut raw = complete();
    raw.rows = Lookup::Malformed;
    assert_eq!(decode(raw).err(), Some(VolumeError::MalformedField(Field::Rows)));
    let mut raw = complete();
    raw.position = Lookup::Malformed;
    assert_eq!(decode(raw).err(), Some(VolumeError::MalformedField(Field::ImagePositionPatient)));
    let mut raw = complete();
    raw.pixel_spacing = Lookup::Malformed;
    assert_eq!(decode(raw).err(), Some(VolumeError::MalformedField(Field::PixelSpacing)));
    let mut raw = complete();
    raw.orientation = Lookup::Malformed;
    assert_eq!(
        decode(raw).err(),
        Some(VolumeError::MalformedField(Field::ImageOrientationPatient))
    );
    let mut raw = complete();
    raw.pixel_data = Lookup::Malformed;
    assert_eq!(decode(raw).err(), Some(VolumeError::MalformedField(Field::PixelData)));
}

#[test]
fn wrong_counts_are_damage() {
    let mut raw = complete();
    raw.position = numbers(&[1.0, 2.0]);
    assert_eq!(decode(raw).err(), Some(VolumeError::MalformedField(Field::ImagePositionPatient)));
    let mut raw = complete();
    raw.position = numbers(&[1.0, 2.0, 3.0, 4.0]);
    assert_eq!(decode(raw).err(), Some(VolumeError::MalformedField(Field::ImagePositionPatient)));
    let mut raw = complete();
    raw.pixel_spacing = numbers(&[1.0]);
    assert_eq!(decode(raw).err(), Some(VolumeError::MalformedField(Field::PixelSpacing)));
    let mut raw = complete();
    raw.pixel_spacing = numbers(&[1.0, 2.0, 3.0]);
    assert_eq!(decode(raw).err(), Some(VolumeError::MalformedField(Field::PixelSpacing)));
    let mut raw = complete();
    raw.orientation = numbers(&[1.0, 0.0, 0.0, 0.0, 1.0]);
    assert_eq!(
        decode(raw).err(),
        Some(VolumeError::MalformedField(Field::ImageOrientationPatient))
    );
    let mut raw = complete();
    raw.orientation = numbers(&[]);
    assert_eq!(
        decode(raw).err(),
        Some(VolumeError::MalformedField(Field::ImageOrientationPatient))
    );
}

#[test]
fn orientation_takes_its_first_six_numbers() {
    let mut raw = complete();
    raw.orientation = numbers(&[0.0, 1.0, 0.0, 0.0, 0.0, 1.0, 7.0, 8.0]);
    let slice = decode(raw).unwrap();
    assert_eq!(slice.orientation.row, Vec3 { x: s(0.0), y: s(1.0), z: s(0.0) });
    assert_eq!(slice.orientation.column, Vec3 { x: s(0.0), y: s(0.0), z: s(1.0) });
}

#[test]
fn the_first_failure_is_reported() {
    let mut raw = complete();
    raw.rows = Lookup::Absent;
    raw.position = Lookup::Malformed;
    raw.pixel_data = Lookup::Absent;
    assert_eq!(decode(raw).err(), Some(VolumeError::MissingField(Field::Rows)));
    let mut raw = complete();
    raw.slice_location = Lookup::Malformed;
    raw.position = Lookup::Absent;
    assert_eq!(decode(raw).err(), Some(VolumeError::MissingField(Field::ImagePositionPatient)));
    let mut raw = complete();
    raw.slice_location = Lookup::Malformed;
    raw.pixel_spacing = Lookup::Absent;
    assert_eq!(decode(raw).err(), Some(VolumeError::MalformedField(Field::SliceLocation)));
}

#[test]
fn resolve_tells_when_the_fallback_was_used() {
    assert_eq!(resolve(Lookup::Present(s(3.0)), s(9.0)), (s(3.0), false));
    assert_eq!(resolve(Lookup::Absent, s(9.0)), (s(9.0), true));
    assert_eq!(resolve(Lookup::Malformed, s(9.0)), (s(9.0), true));
}

#[test]
fn record_needs_one_sample_for_each_stored_one() {
    let slice = decode(complete()).unwrap();
    assert!(slice.into_record(vec![s(1.0); 5]).is_none());
    let slice = decode(complete()).unwrap();
    assert!(slice.into_record(vec![s(1.0); 7]).is_none());
    let slice = decode(complete()).unwrap();
    let record = slice.into_record(vec![s(1.0); 6]).unwrap();
    assert_eq!(record.columns, 2);
    assert_eq!(record.rows, 3);
    assert_eq!(record.slice_location, s(42.0));
    assert_eq!(record.position, Vec3 { x: s(-10.0), y: s(20.0), z: s(30.5) });
    assert_eq!(record.pixel_spacing_2d, Vec2 { x: s(0.5), y: s(0.25) });
    assert_eq!(record.samples, vec![s(1.0); 6]);
}

#[test]
fn field_names_are_the_keywords() {
    assert_eq!(Field::Columns.name(), "Columns");
    assert_eq!(Field::Rows.name(), "Rows");
    assert_eq!(Field::ImagePositionPatient.name(), "ImagePositionPatient");
    assert_eq!(Field::SliceLocation.name(), "SliceLocation");
    assert_eq!(Field::PixelSpacing.name(), "PixelSpacing");
    assert_eq!(Field::ImageOrientationPatient.name(), "ImageOrientationPatient");
    assert_eq!(Field::PixelData.name(), "PixelData");
}
