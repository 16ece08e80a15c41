//! What the reader takes from a parsed data set.
//!
//! The data set and its elements are values of the `dicom` crate and opaque
//! here. The functions of this module parse a file's bytes, look an element up
//! by its keyword and convert its value. What they return is not proved but
//! named: `held` names what a data set holds, `readings` what an element's
//! values are to the conversions, `parsed` what the parser makes of bytes.

use vstd::prelude::*;
use crate::scalar::Scalar;

verus! {

/// `dicom::dictionary_std::StandardDataDictionary`, the dictionary that turns
/// keywords into tags: carried through, never looked into.
#[verifier::external_type_specification]
#[verifier::external_body]
pub struct ExStandardDataDictionary(dicom::dictionary_std::StandardDataDictionary);

/// `dicom::object::InMemDicomObject`, a parsed data set: carried through, never
/// looked into.
#[verifier::external_type_specification]
#[verifier::external_body]
#[verifier::reject_recursive_types(D)]
pub struct ExInMemDicomObject<D>(dicom::object::InMemDicomObject<D>);

/// `dicom::core::DataElement`, one element of a data set: carried through,
/// never looked into.
#[verifier::external_type_specification]
#[verifier::external_body]
#[verifier::reject_recursive_types(I)]
#[verifier::reject_recursive_types(P)]
pub struct ExDataElement<I, P>(dicom::core::DataElement<I, P>);

/// A data set held in memory, with the standard dictionary of attributes.
pub type DataSet = dicom::object::InMemDicomObject<dicom::dictionary_std::StandardDataDictionary>;

/// One element of such a data set.
pub type Element = dicom::core::DataElement<DataSet, Vec<u8>>;

/// The outcome of looking an attribute up and reading its value.
#[derive(Debug)]
pub enum Lookup<T> {
    /// The data set has no such element.
    Absent,
    /// The element is there, but its value cannot be read as the kind asked for.
    Malformed,
    Present(T),
}

impl<T> Lookup<T> {
    /// The value that was found.
    pub open spec fn value(self) -> T
        recommends
            self is Present,
    {
        match self {
            Lookup::Present(value) => value,
            _ => arbitrary(),
        }
    }
}

impl<T> Lookup<Vec<T>> {
    /// The same outcome, with what was found as a sequence.
    pub open spec fn as_seq(self) -> Lookup<Seq<T>> {
        match self {
            Lookup::Absent => Lookup::Absent,
            Lookup::Malformed => Lookup::Malformed,
            Lookup::Present(values) => Lookup::Present(values@),
        }
    }
}

/// What the conversions that the reader uses make of one element's values;
/// `None` where a conversion fails. Numbers are bit patterns.
pub ghost struct Readings {
    /// The first value, of an element of unsigned 16-bit integers.
    pub uint16: Option<u16>,
    /// The first value, converted to a number.
    pub float32: Option<Scalar>,
    /// All the values, converted to numbers.
    pub multi_float32: Option<Seq<Scalar>>,
    /// All the values, converted to signed 16-bit integers.
    pub multi_int: Option<Seq<i16>>,
}

/// What a data set holds, by keyword.
pub type Holdings = Map<Seq<char>, Readings>;

/// What a data set holds: for each keyword under which `element_by_name` finds
/// an element, the readings of that element.
pub uninterp spec fn held(data: DataSet) -> Holdings;

/// What an element's values are to the conversions `uint16`, `to_float32`,
/// `to_multi_float32` and `to_multi_int` at signed 16-bit integers.
pub uninterp spec fn readings(element: Element) -> Readings;

/// What `dicom::object::from_reader` makes of the bytes of a file: what the
/// parsed data set holds, or `None` where the bytes cannot be parsed.
pub uninterp spec fn parsed(bytes: Seq<u8>) -> Option<Holdings>;

/// What looking up one unsigned 16-bit integer finds.
pub open spec fn found_uint16(holdings: Holdings, keyword: Seq<char>) -> Lookup<u16> {
    if !holdings.dom().contains(keyword) {
        Lookup::Absent
    } else {
        match holdings[keyword].uint16 {
            None => Lookup::Malformed,
            Some(value) => Lookup::Present(value),
        }
    }
}

/// What looking up one number finds.
pub open spec fn found_number(holdings: Holdings, keyword: Seq<char>) -> Lookup<Scalar> {
    if !holdings.dom().contains(keyword) {
        Lookup::Absent
    } else {
        match holdings[keyword].float32 {
            None => Lookup::Malformed,
            Some(value) => Lookup::Present(value),
        }
    }
}

/// What looking up several numbers finds.
pub open spec fn found_numbers(holdings: Holdings, keyword: Seq<char>) -> Lookup<Seq<Scalar>> {
    if !holdings.dom().contains(keyword) {
        Lookup::Absent
    } else {
        match holdings[keyword].multi_float32 {
            None => Lookup::Malformed,
            Some(values) => Lookup::Present(values),
        }
    }
}

/// What looking up signed 16-bit samples finds.
pub open spec fn found_samples(holdings: Holdings, keyword: Seq<char>) -> Lookup<Seq<i16>> {
    if !holdings.dom().contains(keyword) {
        Lookup::Absent
    } else {
        match holdings[keyword].multi_int {
            None => Lookup::Malformed,
            Some(values) => Lookup::Present(values),
        }
    }
}

/// `dicom::object::from_reader`, followed by `FileDicomObject::into_inner`: the
/// data set that the bytes of a file encode, without its file meta group, or
/// `None` where the bytes cannot be parsed as a file in the standard
/// encoding. The parser reads nothing but the bytes, so the outcome is a
/// function of them; it is not written out here but named: `parsed`.
#[verifier::external_body]
pub(crate) fn from_reader(bytes: &[u8]) -> (data: Option<DataSet>)
    ensures
        match data {
            Some(d) => parsed(bytes@) == Some(held(d)),
            None => parsed(bytes@) is None,
        },
{
    dicom::object::from_reader(bytes).ok().map(|file| file.into_inner())
}

/// `InMemDicomObject::element_by_name`: the element with the given keyword, or
/// `None` where the data set has none or the dictionary does not know the
/// keyword. It finds an element exactly under the keywords of `held`, and the
/// element it finds is the one whose readings `held` gives.
#[verifier::external_body]
fn element_by_name<'a>(data: &'a DataSet, keyword: &str) -> (element: Option<&'a Element>)
    ensures
        element is Some <==> held(*data).dom().contains(keyword@),
        element matches Some(e) ==> readings(*e) == held(*data)[keyword@],
{
    data.element_by_name(keyword).ok()
}

/// `DataElement::uint16`: the first value of an element of unsigned 16-bit
/// integers, or `None` where the element is of another kind or empty. The
/// outcome is a function of the element, named in `readings`.
#[verifier::external_body]
fn element_uint16(element: &Element) -> (value: Option<u16>)
    ensures
        value == readings(*element).uint16,
{
    element.uint16().ok()
}

/// `DataElement::to_float32`: the element's first value converted to a
/// single-precision number and handed out as its bit pattern, or `None` where
/// it cannot be converted. The outcome is a function of the element, named in
/// `readings`.
#[verifier::external_body]
fn element_to_float32(element: &Element) -> (value: Option<Scalar>)
    ensures
        value == readings(*element).float32,
{
    element.to_float32().ok().map(|v| Scalar { bits: v.to_bits() })
}

/// `DataElement::to_multi_float32`: all the element's values converted to
/// single-precision numbers and handed out as bit patterns, in their order, or
/// `None` where one cannot be converted. The outcome is a function of the
/// element, named in `readings`.
#[verifier::external_body]
fn element_to_multi_float32(element: &Element) -> (values: Option<Vec<Scalar>>)
    ensures
        match values {
            Some(v) => readings(*element).multi_float32 == Some(v@),
            None => readings(*element).multi_float32 is None,
        },
{
    element.to_multi_float32().ok().map(|v| v.iter().map(|x| Scalar { bits: x.to_bits() }).collect())
}

/// `DataElement::to_multi_int`, at signed 16-bit integers: all the element's
/// values converted, in their order, or `None` where one cannot be converted.
/// The outcome is a function of the element, named in `readings`.
#[verifier::external_body]
fn element_to_multi_int(element: &Element) -> (values: Option<Vec<i16>>)
    ensures
        match values {
            Some(v) => readings(*element).multi_int == Some(v@),
            None => readings(*element).multi_int is None,
        },
{
    element.to_multi_int::<i16>().ok()
}

/// Looks up an attribute that holds one unsigned 16-bit integer.
pub(crate) fn lookup_uint16(data: &DataSet, keyword: &str) -> (found: Lookup<u16>)
    ensures
        found == found_uint16(held(*data), keyword@),
{
    match element_by_name(data, keyword) {
        None => Lookup::Absent,
        Some(element) => match element_uint16(element) {
            None => Lookup::Malformed,
            Some(value) => Lookup::Present(value),
        },
    }
}

/// Looks up an attribute that holds one number.
pub(crate) fn lookup_number(data: &DataSet, keyword: &str) -> (found: Lookup<Scalar>)
    ensures
        found == found_number(held(*data), keyword@),
{
    match element_by_name(data, keyword) {
        None => Lookup::Absent,
        Some(element) => match element_to_float32(element) {
            None => Lookup::Malformed,
            Some(value) => Lookup::Present(value),
        },
    }
}

/// Looks up an attribute that holds several numbers.
pub(crate) fn lookup_numbers(data: &DataSet, keyword: &str) -> (found: Lookup<Vec<Scalar>>)
    ensures
        found.as_seq() == found_numbers(held(*data), keyword@),
{
    match element_by_name(data, keyword) {
        None => Lookup::Absent,
        Some(element) => match element_to_multi_float32(element) {
            None => Lookup::Malformed,
            Some(values) => Lookup::Present(values),
        },
    }
}

/// Looks up an attribute that holds signed 16-bit samples.
pub(crate) fn lookup_samples(data: &DataSet, keyword: &str) -> (found: Lookup<Vec<i16>>)
    ensures
        found.as_seq() == found_samples(held(*data), keyword@),
{
    match element_by_name(data, keyword) {
        None => Lookup::Absent,
        Some(element) => match element_to_multi_int(element) {
            None => Lookup::Malformed,
            Some(values) => Lookup::Present(values),
        },
    }
}

} // verus!
