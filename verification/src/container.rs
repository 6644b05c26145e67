//! Reading the tagged fields out of an image's metadata container.
//!
//! The container is parsed by the `exif` crate. What this module takes from
//! that crate is named here and believed, not proved: the parsed container
//! of a byte sequence, the field under a tag, and three readings of a field.
//! From those names the module proves what [`read_container`] returns.

use vstd::prelude::*;
use vstd::string::*;
use crate::models::Rational;
use crate::tags::{
    FieldValue, FieldValueView, Fields, Tag, TagField, TagFieldView, TagStore, TAG_COUNT,
};

verus! {

/// `exif::Exif`, a parsed container. Nothing is known of its inside; it is
/// only handed back to the crate that made it.
#[verifier::external_type_specification]
#[verifier::external_body]
pub struct ExExif(exif::Exif);

/// `exif::Field`, one field of a parsed container. Nothing is known of its
/// inside.
#[verifier::external_type_specification]
#[verifier::external_body]
pub struct ExField(exif::Field);

/// `exif::Error`, why a container did not parse. Nothing is known of its
/// inside.
#[verifier::external_type_specification]
#[verifier::external_body]
pub struct ExError(exif::Error);

/// What `exif::Reader::read_from_container` makes of an image file's bytes.
pub uninterp spec fn parsed(bytes: Seq<u8>) -> Result<exif::Exif, exif::Error>;

/// What `exif::Exif::get_field` finds in the primary image under the tag
/// that the `exif` crate knows by the same name.
pub uninterp spec fn primary_field(container: exif::Exif, tag: Tag) -> Option<exif::Field>;

/// What `exif::Value::get_uint` reads at a position of a field's value.
pub uninterp spec fn field_uint(field: exif::Field, at: usize) -> Option<u32>;

/// The fractions of a field whose value is of the type RATIONAL.
pub uninterp spec fn field_rationals(field: exif::Field) -> Option<Seq<Rational>>;

/// The text that `exif::Field::display_value` prints for a field.
pub uninterp spec fn field_text(field: exif::Field) -> Seq<char>;

/// The text that an `exif::Error` prints.
pub uninterp spec fn error_text(error: exif::Error) -> Seq<char>;

/// Calls `exif::Reader::read_from_container` on the bytes of an image file.
///
/// The contract only gives the outcome its name, [`parsed`]: the same
/// bytes parse to the same container, or fail with the same error.
#[verifier::external_body]
fn parse(bytes: &[u8]) -> (outcome: Result<exif::Exif, exif::Error>)
    ensures
        outcome == parsed(bytes@),
{
    exif::Reader::new().read_from_container(&mut std::io::Cursor::new(bytes))
}

/// Calls `exif::Exif::get_field` for a tag in the primary image. The tag
/// is the `exif` crate's constant of the same name.
///
/// The contract only gives the outcome its name, [`primary_field`].
#[verifier::external_body]
fn lookup<'a>(container: &'a exif::Exif, tag: Tag) -> (field: Option<&'a exif::Field>)
    ensures
        field matches Some(f) ==> primary_field(*container, tag) == Some(*f),
        field is None ==> primary_field(*container, tag) is None,
{
    let tag = match tag {
        Tag::GpsLatitudeRef => exif::Tag::GPSLatitudeRef, Tag::GpsLatitude => exif::Tag::GPSLatitude,
        Tag::GpsLongitudeRef => exif::Tag::GPSLongitudeRef, Tag::GpsLongitude => exif::Tag::GPSLongitude,
        Tag::ImageWidth => exif::Tag::ImageWidth, Tag::ImageLength => exif::Tag::ImageLength,
        Tag::Make => exif::Tag::Make, Tag::Model => exif::Tag::Model,
        Tag::DateTime => exif::Tag::DateTime, Tag::ExposureTime => exif::Tag::ExposureTime,
        Tag::FNumber => exif::Tag::FNumber, Tag::FocalLength => exif::Tag::FocalLength,
        Tag::PhotographicSensitivity => exif::Tag::PhotographicSensitivity,
        Tag::DateTimeOriginal => exif::Tag::DateTimeOriginal,
        Tag::PixelXDimension => exif::Tag::PixelXDimension, Tag::PixelYDimension => exif::Tag::PixelYDimension,
    };
    container.get_field(tag, exif::In::PRIMARY)
}

/// Calls `exif::Value::get_uint` on a field's value.
///
/// The contract only gives the outcome its name, [`field_uint`].
#[verifier::external_body]
fn uint_at(field: &exif::Field, at: usize) -> (n: Option<u32>)
    ensures
        n == field_uint(*field, at),
{
    field.value.get_uint(at)
}

/// Hands out the fractions of a field whose `exif::Value` is the variant
/// `Rational`, each as numerator and denominator, and nothing for any
/// other variant.
///
/// The contract only gives the outcome its name, [`field_rationals`].
#[verifier::external_body]
fn rationals(field: &exif::Field) -> (list: Option<Vec<Rational>>)
    ensures
        list matches Some(v) ==> field_rationals(*field) == Some(v@),
        list is None ==> field_rationals(*field) is None,
{
    match &field.value {
        exif::Value::Rational(v) => Some(
            v.iter().map(|r| Rational { num: r.num, denom: r.denom }).collect(),
        ),
        _ => None,
    }
}

/// Prints a field with `exif::Field::display_value`.
///
/// The contract only gives the outcome its name, [`field_text`].
#[verifier::external_body]
fn display(field: &exif::Field) -> (text: String)
    ensures
        text@ == field_text(*field),
{
    field.display_value().to_string()
}

/// Prints an `exif::Error`.
///
/// The contract only gives the outcome its name, [`error_text`].
#[verifier::external_body]
fn describe(error: &exif::Error) -> (text: String)
    ensures
        text@ == error_text(*error),
{
    error.to_string()
}

/// A field as plain values: its first unsigned integer if it has one, else
/// its fractions if it is a list of fractions; and its text.
pub open spec fn field_model(field: exif::Field) -> TagFieldView {
    TagFieldView {
        value: match field_uint(field, 0) {
            Some(n) => FieldValueView::Unsigned(n),
            None => match field_rationals(field) {
                Some(v) => FieldValueView::Rationals(v),
                None => FieldValueView::Other,
            },
        },
        text: field_text(field),
    }
}

/// The fields of a parsed container's primary image, each under its tag.
pub open spec fn container_fields(container: exif::Exif) -> Fields {
    Map::new(
        |tag: Tag| primary_field(container, tag) is Some,
        |tag: Tag| field_model(primary_field(container, tag)->0),
    )
}

/// The fields found in the bytes of an image file, or why none were.
pub open spec fn parsed_fields(bytes: Seq<u8>) -> Result<Fields, Seq<char>> {
    match parsed(bytes) {
        Ok(container) => Ok(container_fields(container)),
        Err(error) => Err(error_text(error)),
    }
}

/// One field of a parsed container as plain values.
fn read_field(container: &exif::Exif, tag: Tag) -> (field: Option<TagField>)
    ensures
        field matches Some(f) ==> container_fields(*container).contains_key(tag)
            && container_fields(*container)[tag] == f@,
        field is None ==> !container_fields(*container).contains_key(tag),
{
    match lookup(container, tag) {
        Some(found) => {
            let value = match uint_at(found, 0) {
                Some(n) => FieldValue::Unsigned(n),
                None => match rationals(found) {
                    Some(v) => FieldValue::Rationals(v),
                    None => FieldValue::Other,
                },
            };
            Some(TagField { value, text: display(found) })
        },
        None => None,
    }
}

/// All fields of a parsed container that the extraction reads.
fn read_fields(container: &exif::Exif) -> (store: TagStore)
    ensures
        store@ == container_fields(*container),
{
    let mut store = TagStore::new();
    let mut i: usize = 0;
    while i < TAG_COUNT
        invariant
            i <= TAG_COUNT,
            forall|tag: Tag|
                tag.spec_index() < i ==> (#[trigger] store@.contains_key(tag)
                    <==> container_fields(*container).contains_key(tag)),
            forall|tag: Tag|
                tag.spec_index() < i && #[trigger] store@.contains_key(tag) ==> store@[tag]
                    == container_fields(*container)[tag],
            forall|tag: Tag| tag.spec_index() >= i ==> !(#[trigger] store@.contains_key(tag)),
        decreases TAG_COUNT - i,
    {
        let tag = Tag::at(i);
        match read_field(container, tag) {
            Some(field) => {
                store.insert(tag, field);
            },
            None => {},
        }
        i = i + 1;
    }
    store
}

/// Reads the tagged fields out of an image file's bytes.
///
/// Gives the fields of the container found in `bytes`; where no container
/// can be parsed, the parser's words on why.
pub fn read_container(bytes: &[u8]) -> (outcome: Result<TagStore, String>)
    ensures
        outcome matches Ok(store) ==> parsed_fields(bytes@) == Ok::<Fields, Seq<char>>(store@),
        outcome matches Err(why) ==> parsed_fields(bytes@) == Err::<Fields, Seq<char>>(why@),
{
    match parse(bytes) {
        Ok(container) => Ok(read_fields(&container)),
        Err(error) => Err(describe(&error)),
    }
}

} // verus!
