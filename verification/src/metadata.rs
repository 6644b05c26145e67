//! Extraction of a photo's metadata: position, capture time, camera, pixel
//! size and exposure settings.
//!
//! Each field of the record is read from the container on its own, by a
//! function that cannot fail: a missing or misshapen tag leaves that field
//! empty and touches no other.

use vstd::prelude::*;
use vstd::string::*;
use crate::container::{parsed_fields, read_container};
use crate::error::{locate, located, PhotoError, PhotoErrorView};
use crate::models::{
    CameraInfo, CameraInfoView, Coordinate, ExifData, ExifDataView, Gps, Rational, MAX_LATITUDE,
    MAX_LONGITUDE,
};
use crate::source::SourceFile;
use crate::tags::{
    first_present, FieldValue, FieldValueView, Fields, Tag, TagFieldView, TagStore,
};
use crate::text::{is_char, normalize_datetime, normalized_datetime, trim, trimmed};

verus! {

/// Whether a hemisphere reference names the southern or the western
/// hemisphere.
pub open spec fn is_negative_reference(reference: Seq<char>) -> bool {
    reference == seq!['S'] || reference == seq!['W']
}

/// The most degrees that the axis under a coordinate's tag reaches to
/// either side: 90 for the latitude, 180 for the longitude.
pub open spec fn axis_limit(coordinate: Tag) -> u8 {
    if coordinate == Tag::GpsLatitude {
        MAX_LATITUDE
    } else {
        MAX_LONGITUDE
    }
}

/// One axis of the position.
///
/// The axis is there where the container holds both the coordinate and its
/// hemisphere reference, the coordinate is a list of at least three
/// fractions, degrees, minutes and seconds, and these are numbers that
/// stay within the axis: no denominator is zero, and the degrees they add
/// up to do not exceed [`axis_limit`].
pub open spec fn gps_axis(fields: Fields, coordinate: Tag, reference: Tag) -> Option<Coordinate> {
    if fields.contains_key(coordinate) && fields.contains_key(reference) {
        match fields[coordinate].value {
            FieldValueView::Rationals(parts) if parts.len() >= 3 => {
                let axis = Coordinate {
                    degrees: parts[0],
                    minutes: parts[1],
                    seconds: parts[2],
                    negative: is_negative_reference(fields[reference].text),
                };
                if axis.is_within(axis_limit(coordinate) as int) {
                    Some(axis)
                } else {
                    None
                }
            },
            _ => None,
        }
    } else {
        None
    }
}

/// The position: both axes, or nothing.
pub open spec fn gps_of(fields: Fields) -> Option<Gps> {
    match (
        gps_axis(fields, Tag::GpsLatitude, Tag::GpsLatitudeRef),
        gps_axis(fields, Tag::GpsLongitude, Tag::GpsLongitudeRef),
    ) {
        (Some(lat), Some(lng)) => Some(Gps { lat, lng }),
        _ => None,
    }
}

/// The tags that may hold the capture time, the preferred one first.
pub open spec fn datetime_tags() -> Seq<Tag> {
    seq![Tag::DateTimeOriginal, Tag::DateTime]
}

/// The tags that may hold the width, the preferred one first.
pub open spec fn width_tags() -> Seq<Tag> {
    seq![Tag::PixelXDimension, Tag::ImageWidth]
}

/// The tags that may hold the height, the preferred one first.
pub open spec fn height_tags() -> Seq<Tag> {
    seq![Tag::PixelYDimension, Tag::ImageLength]
}

/// The capture time: the text of the first candidate that is present, in
/// normal form.
pub open spec fn datetime_of(fields: Fields) -> Option<Seq<char>> {
    match first_present(fields, datetime_tags()) {
        Some(field) => Some(normalized_datetime(field.text)),
        None => None,
    }
}

/// The camera: maker and model trimmed, where both are present.
pub open spec fn camera_of(fields: Fields) -> Option<CameraInfoView> {
    if fields.contains_key(Tag::Make) && fields.contains_key(Tag::Model) {
        Some(
            CameraInfoView {
                make: trimmed(fields[Tag::Make].text),
                model: trimmed(fields[Tag::Model].text),
            },
        )
    } else {
        None
    }
}

/// A pixel count: the first candidate that is present, read as an unsigned
/// integer.
pub open spec fn dimension_of(fields: Fields, candidates: Seq<Tag>) -> Option<u32> {
    match first_present(fields, candidates) {
        Some(field) => field.unsigned(),
        None => None,
    }
}

/// The field under `tag` read as an unsigned integer.
pub open spec fn unsigned_of(fields: Fields, tag: Tag) -> Option<u32> {
    if fields.contains_key(tag) {
        fields[tag].unsigned()
    } else {
        None
    }
}

/// The first fraction of the field under `tag`.
pub open spec fn rational_of(fields: Fields, tag: Tag) -> Option<Rational> {
    if fields.contains_key(tag) {
        fields[tag].first_rational()
    } else {
        None
    }
}

/// The whole record, field by field.
pub open spec fn record_of(fields: Fields) -> ExifDataView {
    ExifDataView {
        gps: gps_of(fields),
        datetime: datetime_of(fields),
        camera: camera_of(fields),
        width: dimension_of(fields, width_tags()),
        height: dimension_of(fields, height_tags()),
        iso: unsigned_of(fields, Tag::PhotographicSensitivity),
        aperture: rational_of(fields, Tag::FNumber),
        shutter_speed: rational_of(fields, Tag::ExposureTime),
        focal_length: rational_of(fields, Tag::FocalLength),
    }
}

/// One axis of the position, from the coordinate's degrees, minutes and
/// seconds and its hemisphere reference.
///
/// Gives nothing unless both tags are present, the coordinate holds at
/// least three fractions, and these are numbers within the axis: at most 90
/// degrees under the tag of the latitude, at most 180 under any other. The
/// reference `S` or `W` makes the axis negative.
pub fn extract_gps_coordinate(fields: &TagStore, coordinate: Tag, reference: Tag) -> (axis: Option<
    Coordinate,
>)
    ensures
        axis == gps_axis(fields@, coordinate, reference),
        axis is Some ==> fields@.contains_key(coordinate) && fields@.contains_key(reference),
        axis matches Some(a) ==> a.is_within(axis_limit(coordinate) as int),
{
    let parts = match fields.get(coordinate) {
        Some(field) => field,
        None => {
            return None;
        },
    };
    let hemisphere = match fields.get(reference) {
        Some(field) => field,
        None => {
            return None;
        },
    };
    let limit = match coordinate {
        Tag::GpsLatitude => MAX_LATITUDE,
        _ => MAX_LONGITUDE,
    };
    match &parts.value {
        FieldValue::Rationals(list) => {
            if list.len() >= 3 {
                let text = hemisphere.text.as_str();
                let axis = Coordinate {
                    degrees: list[0],
                    minutes: list[1],
                    seconds: list[2],
                    negative: is_char(text, 'S') || is_char(text, 'W'),
                };
                if axis.within(limit) {
                    Some(axis)
                } else {
                    None
                }
            } else {
                None
            }
        },
        _ => None,
    }
}

/// The position. Latitude and longitude are both there, or the photo has
/// no position at all.
pub fn extract_gps(fields: &TagStore) -> (gps: Option<Gps>)
    ensures
        gps == gps_of(fields@),
        gps matches Some(position) ==> position.is_on_globe(),
        gps is Some ==> {
            &&& fields@.contains_key(Tag::GpsLatitude)
            &&& fields@.contains_key(Tag::GpsLatitudeRef)
            &&& fields@.contains_key(Tag::GpsLongitude)
            &&& fields@.contains_key(Tag::GpsLongitudeRef)
        },
{
    let lat = match extract_gps_coordinate(fields, Tag::GpsLatitude, Tag::GpsLatitudeRef) {
        Some(axis) => axis,
        None => {
            return None;
        },
    };
    let lng = match extract_gps_coordinate(fields, Tag::GpsLongitude, Tag::GpsLongitudeRef) {
        Some(axis) => axis,
        None => {
            return None;
        },
    };
    Some(Gps { lat, lng })
}

/// The capture time in normal form: from the tag of the original capture,
/// else from the tag of the last change.
pub fn extract_datetime(fields: &TagStore) -> (datetime: Option<String>)
    ensures
        datetime matches Some(t) ==> datetime_of(fields@) == Some(t@),
        datetime is None ==> datetime_of(fields@) is None,
        datetime is Some <==> fields@.contains_key(Tag::DateTimeOriginal) || fields@.contains_key(
            Tag::DateTime,
        ),
{
    let candidates = [Tag::DateTimeOriginal, Tag::DateTime];
    proof {
        lemma_first_of_two(fields@, Tag::DateTimeOriginal, Tag::DateTime);
    }
    match fields.first_present(candidates.as_slice()) {
        Some(field) => Some(normalize_datetime(field.text.as_str())),
        None => None,
    }
}

/// The camera's maker and model, trimmed. Without either tag there is no
/// camera.
pub fn extract_camera(fields: &TagStore) -> (camera: Option<CameraInfo>)
    ensures
        camera matches Some(c) ==> camera_of(fields@) == Some(c@),
        camera is None ==> camera_of(fields@) is None,
        camera is Some <==> fields@.contains_key(Tag::Make) && fields@.contains_key(Tag::Model),
{
    let make = match fields.get(Tag::Make) {
        Some(field) => trim(field.text.as_str()),
        None => {
            return None;
        },
    };
    let model = match fields.get(Tag::Model) {
        Some(field) => trim(field.text.as_str()),
        None => {
            return None;
        },
    };
    Some(CameraInfo { make, model })
}

/// One pixel count: the first of `candidates` that is present, read as an
/// unsigned integer.
fn extract_dimension(fields: &TagStore, candidates: &[Tag]) -> (pixels: Option<u32>)
    ensures
        pixels == dimension_of(fields@, candidates@),
{
    match fields.first_present(candidates) {
        Some(field) => field.unsigned(),
        None => None,
    }
}

/// Width and height in pixels, each on its own: from the tag of the
/// processed image, else from the tag of the stored image.
pub fn extract_image_size(fields: &TagStore) -> (size: (Option<u32>, Option<u32>))
    ensures
        size.0 == dimension_of(fields@, width_tags()),
        size.1 == dimension_of(fields@, height_tags()),
{
    let across = [Tag::PixelXDimension, Tag::ImageWidth];
    let down = [Tag::PixelYDimension, Tag::ImageLength];
    (extract_dimension(fields, across.as_slice()), extract_dimension(fields, down.as_slice()))
}

/// The ISO sensitivity.
pub fn extract_iso(fields: &TagStore) -> (iso: Option<u32>)
    ensures
        iso == unsigned_of(fields@, Tag::PhotographicSensitivity),
{
    match fields.get(Tag::PhotographicSensitivity) {
        Some(field) => field.unsigned(),
        None => None,
    }
}

/// The first fraction of the field under `tag`.
fn extract_rational(fields: &TagStore, tag: Tag) -> (value: Option<Rational>)
    ensures
        value == rational_of(fields@, tag),
{
    match fields.get(tag) {
        Some(field) => field.first_rational(),
        None => None,
    }
}

/// The f-number.
pub fn extract_aperture(fields: &TagStore) -> (aperture: Option<Rational>)
    ensures
        aperture == rational_of(fields@, Tag::FNumber),
{
    extract_rational(fields, Tag::FNumber)
}

/// The exposure time in seconds.
pub fn extract_shutter_speed(fields: &TagStore) -> (seconds: Option<Rational>)
    ensures
        seconds == rational_of(fields@, Tag::ExposureTime),
{
    extract_rational(fields, Tag::ExposureTime)
}

/// The focal length in millimetres.
pub fn extract_focal_length(fields: &TagStore) -> (millimetres: Option<Rational>)
    ensures
        millimetres == rational_of(fields@, Tag::FocalLength),
{
    extract_rational(fields, Tag::FocalLength)
}

/// The whole record of a container's fields.
pub fn extract_all(fields: &TagStore) -> (data: ExifData)
    ensures
        data@ == record_of(fields@),
{
    let gps = extract_gps(fields);
    let datetime = extract_datetime(fields);
    let camera = extract_camera(fields);
    let (width, height) = extract_image_size(fields);
    let iso = extract_iso(fields);
    let aperture = extract_aperture(fields);
    let shutter_speed = extract_shutter_speed(fields);
    let focal_length = extract_focal_length(fields);
    ExifData {
        gps,
        datetime,
        camera,
        width,
        height,
        iso,
        aperture,
        shutter_speed,
        focal_length,
    }
}

/// What reading the metadata of a file comes to.
///
/// A missing file is not found, whatever the path. An unreadable file is a
/// read error. Bytes without a container that parses are a container
/// error. Bytes with one give the record of its fields.
pub open spec fn read_outcome(path: Seq<char>, file: SourceFile) -> Result<
    ExifDataView,
    PhotoErrorView,
> {
    match file {
        SourceFile::Missing => Err(PhotoErrorView::FileNotFound(path)),
        SourceFile::Unreadable(cause) => Err(PhotoErrorView::FileReadError(located(path, cause@))),
        SourceFile::Loaded(bytes) => match parsed_fields(bytes@) {
            Ok(fields) => Ok(record_of(fields)),
            Err(why) => Err(PhotoErrorView::ExifReadError(located(path, why))),
        },
    }
}

/// Reads the metadata of the photo at `path`, given what reading the file
/// gave.
///
/// Fails only where the file is missing or unreadable or holds no container
/// that parses. A container that parses always gives a record, however few
/// of its fields are there.
pub fn read_exif(path: &str, file: &SourceFile) -> (outcome: Result<ExifData, PhotoError>)
    ensures
        outcome matches Ok(data) ==> read_outcome(path@, *file) == Ok::<
            ExifDataView,
            PhotoErrorView,
        >(data@),
        outcome matches Err(error) ==> read_outcome(path@, *file) == Err::<
            ExifDataView,
            PhotoErrorView,
        >(error@),
        file is Missing ==> (outcome matches Err(PhotoError::FileNotFound(p)) && p@ == path@),
{
    match file {
        SourceFile::Missing => Err(PhotoError::FileNotFound(String::from_str(path))),
        SourceFile::Unreadable(cause) => Err(PhotoError::FileReadError(locate(path, cause.as_str()))),
        SourceFile::Loaded(bytes) => match read_container(bytes.as_slice()) {
            Ok(fields) => Ok(extract_all(&fields)),
            Err(why) => Err(PhotoError::ExifReadError(locate(path, why.as_str()))),
        },
    }
}

/// A position needs all four of its tags: without the coordinate or the
/// hemisphere reference of either axis there is no position at all.
pub proof fn lemma_gps_needs_both_halves(fields: Fields)
    ensures
        !fields.contains_key(Tag::GpsLatitude) ==> gps_of(fields) is None,
        !fields.contains_key(Tag::GpsLatitudeRef) ==> gps_of(fields) is None,
        !fields.contains_key(Tag::GpsLongitude) ==> gps_of(fields) is None,
        !fields.contains_key(Tag::GpsLongitudeRef) ==> gps_of(fields) is None,
{
}

/// The hemisphere reference decides the sign and nothing else: the same
/// coordinate read with the reference `S` or `W` is the mirror image of its
/// reading with any other reference, so its decimal degrees are the
/// negated ones.
pub proof fn lemma_reference_decides_sign(
    fields: Fields,
    coordinate: Tag,
    reference: Tag,
    south: TagFieldView,
    north: TagFieldView,
)
    requires
        coordinate != reference,
        is_negative_reference(south.text),
        !is_negative_reference(north.text),
    ensures
        gps_axis(fields.insert(reference, south), coordinate, reference) == match gps_axis(
            fields.insert(reference, north),
            coordinate,
            reference,
        ) {
            Some(axis) => Some(axis.mirrored()),
            None => None,
        },
        gps_axis(fields.insert(reference, north), coordinate, reference) matches Some(axis)
            ==> !axis.negative && axis.mirrored().numerator() == -axis.numerator()
            && axis.mirrored().denominator() == axis.denominator(),
{
}

/// Taking one tag away changes no field of the record that does not read
/// that tag.
pub proof fn lemma_absence_is_local(fields: Fields, tag: Tag)
    ensures
        tag != Tag::GpsLatitude && tag != Tag::GpsLatitudeRef && tag != Tag::GpsLongitude && tag
            != Tag::GpsLongitudeRef ==> record_of(fields.remove(tag)).gps == record_of(fields).gps,
        tag != Tag::DateTimeOriginal && tag != Tag::DateTime ==> record_of(
            fields.remove(tag),
        ).datetime == record_of(fields).datetime,
        tag != Tag::Make && tag != Tag::Model ==> record_of(fields.remove(tag)).camera
            == record_of(fields).camera,
        tag != Tag::PixelXDimension && tag != Tag::ImageWidth ==> record_of(
            fields.remove(tag),
        ).width == record_of(fields).width,
        tag != Tag::PixelYDimension && tag != Tag::ImageLength ==> record_of(
            fields.remove(tag),
        ).height == record_of(fields).height,
        tag != Tag::PhotographicSensitivity ==> record_of(fields.remove(tag)).iso == record_of(
            fields,
        ).iso,
        tag != Tag::FNumber ==> record_of(fields.remove(tag)).aperture == record_of(
            fields,
        ).aperture,
        tag != Tag::ExposureTime ==> record_of(fields.remove(tag)).shutter_speed == record_of(
            fields,
        ).shutter_speed,
        tag != Tag::FocalLength ==> record_of(fields.remove(tag)).focal_length == record_of(
            fields,
        ).focal_length,
{
    let less = fields.remove(tag);
    lemma_first_of_two(fields, Tag::DateTimeOriginal, Tag::DateTime);
    lemma_first_of_two(less, Tag::DateTimeOriginal, Tag::DateTime);
    lemma_first_of_two(fields, Tag::PixelXDimension, Tag::ImageWidth);
    lemma_first_of_two(less, Tag::PixelXDimension, Tag::ImageWidth);
    lemma_first_of_two(fields, Tag::PixelYDimension, Tag::ImageLength);
    lemma_first_of_two(less, Tag::PixelYDimension, Tag::ImageLength);
}

/// A container without the camera's maker has no camera, and every other
/// field of its record is what it would be with the maker present.
pub proof fn lemma_missing_make_costs_only_the_camera(fields: Fields)
    ensures
        record_of(fields.remove(Tag::Make)) == (ExifDataView {
            camera: None,
            ..record_of(fields)
        }),
{
    lemma_absence_is_local(fields, Tag::Make);
}

/// Every position that a record holds is on the globe: its latitude is a
/// number within 90 degrees of the equator, its longitude a number within
/// 180 degrees of the prime meridian.
pub proof fn lemma_position_is_on_globe(fields: Fields)
    ensures
        record_of(fields).gps matches Some(position) ==> position.is_on_globe(),
{
}

/// Of two candidates the first that is present is found.
proof fn lemma_first_of_two(fields: Fields, first: Tag, second: Tag)
    ensures
        first_present(fields, seq![first, second]) == if fields.contains_key(first) {
            Some(fields[first])
        } else if fields.contains_key(second) {
            Some(fields[second])
        } else {
            None
        },
{
    reveal_with_fuel(first_present, 3);
}

} // verus!
