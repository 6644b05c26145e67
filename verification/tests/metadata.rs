use photogeoview::error::PhotoError;
use photogeoview::metadata::{
    extract_all, extract_aperture, extract_camera, extract_datetime, extract_focal_length,
    extract_gps, extract_gps_coordinate, extract_image_size, extract_iso, extract_shutter_speed,
    read_exif,
};
use photogeoview::models::{Coordinate, Fraction, Rational};
use photogeoview::source::SourceFile;
use photogeoview::tags::{FieldValue, Tag, TagField, TagStore};

fn text_field(text: &str) -> TagField {
    TagField { value: FieldValue::Other, text: text.to_string() }
}

fn unsigned_field(n: u32) -> TagField {
    TagField { value: FieldValue::Unsigned(n), text: n.to_string() }
}

fn rational_field(parts: &[(u32, u32)]) -> TagField {
    TagField {
        value: FieldValue::Rationals(
            parts.iter().map(|&(num, denom)| Rational { num, denom }).collect(),
        ),
        text: String::new(),
    }
}

fn degrees(c: &Coordinate) -> f64 {
    let Fraction { num, den } = c.decimal().unwrap();
    num as f64 / den as f64
}

fn tokyo() -> TagStore {
    let mut fields = TagStore::new();
    fields.insert(Tag::GpsLatitude, rational_field(&[(35, 1), (30, 1), (0, 1)]));
    fields.insert(Tag::GpsLatitudeRef, text_field("N"));
    fields.insert(Tag::GpsLongitude, rational_field(&[(139, 1), (45, 1), (0, 1)]));
    fields.insert(Tag::GpsLongitudeRef, text_field("E"));
    fields
}

fn full() -> TagStore {
    let mut fields = tokyo();
    fields.insert(Tag::DateTimeOriginal, text_field("2024-03-15 10:20:30"));
    fields.insert(Tag::Make, text_field("  Canon "));
    fields.insert(Tag::Model, text_field("EOS R5\t"));
    fields.insert(Tag::PixelXDimension, unsigned_field(8192));
    fields.insert(Tag::PixelYDimension, unsigned_field(5464));
    fields.insert(Tag::PhotographicSensitivity, unsigned_field(400));
    fields.insert(Tag::FNumber, rational_field(&[(28, 10)]));
    fields.insert(Tag::ExposureTime, rational_field(&[(1, 250)]));
    fields.insert(Tag::FocalLength, rational_field(&[(50, 1)]));
    fields
}

#[test]
fn test_read_exif_nonexistent_file() {
    let result = read_exif("/nonexistent/file.jpg", &SourceFile::Missing);
    assert!(result.is_err());
    assert!(matches!(result.unwrap_err(), PhotoError::FileNotFound(_)));
}

#[test]
fn missing_file_error_carries_the_path() {
    for path in ["/nonexistent/file.jpg", "", "relative/ghost.png", "C:\\nowhere\\写真.jpg"] {
        match read_exif(path, &SourceFile::Missing) {
            Err(PhotoError::FileNotFound(p)) => assert_eq!(p, path),
            other => panic!("unexpected outcome: {:?}", other),
        }
    }
}

#[test]
fn unreadable_file_is_a_read_error() {
    let file = SourceFile::Unreadable("permission denied".to_string());
    match read_exif("/photos/a.jpg", &file) {
        Err(PhotoError::FileReadError(detail)) => {
            assert_eq!(detail, "/photos/a.jpg: permission denied")
        },
        other => panic!("unexpected outcome: {:?}", other),
    }
}

#[test]
fn bytes_without_container_are_a_container_error() {
    let file = SourceFile::Loaded(b"this is no image at all".to_vec());
    match read_exif("/photos/a.jpg", &file) {
        Err(PhotoError::ExifReadError(detail)) => {
            assert!(detail.starts_with("/photos/a.jpg: "));
            assert!(detail.len() > "/photos/a.jpg: ".len());
        },
        other => panic!("unexpected outcome: {:?}", other),
    }
}

#[test]
fn empty_bytes_are_a_container_error() {
    let file = SourceFile::Loaded(Vec::new());
    assert!(matches!(read_exif("x", &file), Err(PhotoError::ExifReadError(_))));
}

#[test]
fn gps_round_trip() {
    let gps = extract_gps(&tokyo()).unwrap();
    assert_eq!(degrees(&gps.lat), 35.5);
    assert_eq!(degrees(&gps.lng), 139.75);
    assert_eq!(gps.lat.decimal(), Some(Fraction { num: 127800, den: 3600 }));
    assert_eq!(gps.lng.decimal(), Some(Fraction { num: 503100, den: 3600 }));
    assert!(!gps.lat.negative);
    assert!(!gps.lng.negative);
}

#[test]
fn gps_parts_are_kept_as_read() {
    let mut fields = TagStore::new();
    fields.insert(Tag::GpsLatitude, rational_field(&[(35, 1), (3946, 100), (0, 1), (7, 7)]));
    fields.insert(Tag::GpsLatitudeRef, text_field("N"));
    let lat = extract_gps_coordinate(&fields, Tag::GpsLatitude, Tag::GpsLatitudeRef).unwrap();
    assert_eq!(lat.degrees, Rational { num: 35, denom: 1 });
    assert_eq!(lat.minutes, Rational { num: 3946, denom: 100 });
    assert_eq!(lat.seconds, Rational { num: 0, denom: 1 });
    let expected = 35.0 + 39.46 / 60.0;
    assert!((degrees(&lat) - expected).abs() < 1e-12);
    assert_eq!(lat.decimal(), Some(Fraction { num: 3600 * 35 * 100 + 60 * 3946, den: 360000 }));
}

#[test]
fn hemisphere_sign() {
    let mut fields = tokyo();
    let north_east = extract_gps(&fields).unwrap();
    fields.insert(Tag::GpsLatitudeRef, text_field("S"));
    fields.insert(Tag::GpsLongitudeRef, text_field("W"));
    let south_west = extract_gps(&fields).unwrap();
    assert!(south_west.lat.negative);
    assert!(south_west.lng.negative);
    assert_eq!(degrees(&south_west.lat), -degrees(&north_east.lat));
    assert_eq!(degrees(&south_west.lng), -degrees(&north_east.lng));
    assert_eq!(degrees(&south_west.lat), -35.5);
    assert_eq!(degrees(&south_west.lng), -139.75);
    let Fraction { num: n, den: d } = north_east.lat.decimal().unwrap();
    assert_eq!(south_west.lat.decimal(), Some(Fraction { num: -n, den: d }));
}

#[test]
fn only_s_and_w_negate() {
    for (reference, negative) in
        [("S", true), ("W", true), ("N", false), ("E", false), ("s", false), ("", false), ("SW", false), ("\"S\"", false)]
    {
        let mut fields = TagStore::new();
        fields.insert(Tag::GpsLatitude, rational_field(&[(1, 1), (2, 1), (3, 1)]));
        fields.insert(Tag::GpsLatitudeRef, text_field(reference));
        let axis = extract_gps_coordinate(&fields, Tag::GpsLatitude, Tag::GpsLatitudeRef).unwrap();
        assert_eq!(axis.negative, negative, "reference {:?}", reference);
    }
}

#[test]
fn missing_half_of_gps_pair() {
    let mut fields = tokyo();
    fields.remove(Tag::GpsLatitudeRef);
    assert!(extract_gps_coordinate(&fields, Tag::GpsLatitude, Tag::GpsLatitudeRef).is_none());
    assert!(extract_gps(&fields).is_none());

    let mut fields = tokyo();
    fields.remove(Tag::GpsLatitude);
    assert!(extract_gps(&fields).is_none());

    let mut fields = tokyo();
    fields.remove(Tag::GpsLongitude);
    assert!(extract_gps(&fields).is_none());

    let mut fields = tokyo();
    fields.remove(Tag::GpsLongitudeRef);
    assert!(extract_gps(&fields).is_none());
}

#[test]
fn gps_needs_three_fractions() {
    let mut fields = tokyo();
    fields.insert(Tag::GpsLatitude, rational_field(&[(35, 1), (30, 1)]));
    assert!(extract_gps(&fields).is_none());
    fields.insert(Tag::GpsLatitude, unsigned_field(35));
    assert!(extract_gps(&fields).is_none());
    fields.insert(Tag::GpsLatitude, text_field("35 deg"));
    assert!(extract_gps(&fields).is_none());
}

#[test]
fn zero_denominator_is_no_position() {
    for parts in [[(35, 0), (30, 1), (0, 1)], [(35, 1), (30, 0), (0, 1)], [(35, 1), (30, 1), (0, 0)]] {
        let mut fields = tokyo();
        fields.insert(Tag::GpsLatitude, rational_field(&parts));
        assert!(extract_gps_coordinate(&fields, Tag::GpsLatitude, Tag::GpsLatitudeRef).is_none());
        assert!(extract_gps(&fields).is_none());
    }
}

#[test]
fn latitude_stays_within_ninety_degrees() {
    let axis = |parts: &[(u32, u32)], reference: &str| {
        let mut fields = TagStore::new();
        fields.insert(Tag::GpsLatitude, rational_field(parts));
        fields.insert(Tag::GpsLatitudeRef, text_field(reference));
        extract_gps_coordinate(&fields, Tag::GpsLatitude, Tag::GpsLatitudeRef)
    };
    assert!(axis(&[(90, 1), (0, 1), (0, 1)], "N").is_some());
    assert!(axis(&[(90, 1), (0, 1), (0, 1)], "S").is_some());
    assert!(axis(&[(89, 1), (59, 1), (60, 1)], "N").is_some());
    assert!(axis(&[(89, 1), (60, 1), (0, 1)], "S").is_some());
    assert!(axis(&[(0, 1), (0, 1), (324000, 1)], "N").is_some());
    assert!(axis(&[(900, 10), (0, 7), (0, 3)], "N").is_some());
    assert!(axis(&[(90, 1), (0, 1), (1, 1)], "N").is_none());
    assert!(axis(&[(90, 1), (0, 1), (1, 1000)], "S").is_none());
    assert!(axis(&[(90, 1), (1, 1), (0, 1)], "N").is_none());
    assert!(axis(&[(91, 1), (0, 1), (0, 1)], "N").is_none());
    assert!(axis(&[(200, 1), (0, 1), (0, 1)], "N").is_none());
    assert!(axis(&[(0, 1), (5401, 1), (0, 1)], "N").is_none());
    assert!(axis(&[(u32::MAX, 1), (u32::MAX, 1), (u32::MAX, 1)], "N").is_none());
    assert!(axis(&[(u32::MAX, u32::MAX), (u32::MAX, u32::MAX), (u32::MAX, u32::MAX)], "N").is_some());
}

#[test]
fn longitude_stays_within_one_hundred_and_eighty_degrees() {
    let axis = |parts: &[(u32, u32)], reference: &str| {
        let mut fields = TagStore::new();
        fields.insert(Tag::GpsLongitude, rational_field(parts));
        fields.insert(Tag::GpsLongitudeRef, text_field(reference));
        extract_gps_coordinate(&fields, Tag::GpsLongitude, Tag::GpsLongitudeRef)
    };
    assert!(axis(&[(91, 1), (0, 1), (0, 1)], "E").is_some());
    assert!(axis(&[(180, 1), (0, 1), (0, 1)], "E").is_some());
    assert!(axis(&[(180, 1), (0, 1), (0, 1)], "W").is_some());
    assert!(axis(&[(179, 1), (59, 1), (60, 1)], "W").is_some());
    assert!(axis(&[(180, 1), (0, 1), (1, 1)], "E").is_none());
    assert!(axis(&[(181, 1), (0, 1), (0, 1)], "W").is_none());
    assert!(axis(&[(200, 1), (0, 1), (0, 1)], "E").is_none());
}

#[test]
fn position_off_the_globe_is_no_position() {
    let mut fields = tokyo();
    fields.insert(Tag::GpsLatitude, rational_field(&[(200, 1), (0, 1), (0, 1)]));
    assert!(extract_gps(&fields).is_none());
    let data = extract_all(&fields);
    assert!(data.gps.is_none());

    let mut fields = tokyo();
    fields.insert(Tag::GpsLongitude, rational_field(&[(181, 1), (0, 1), (0, 1)]));
    assert!(extract_gps(&fields).is_none());
}

#[test]
fn within_is_exact_at_the_limit() {
    let c = Coordinate {
        degrees: Rational { num: 89, denom: 1 },
        minutes: Rational { num: 59, denom: 1 },
        seconds: Rational { num: 599999, denom: 10000 },
        negative: false,
    };
    assert!(c.within(90));
    assert!(!c.within(89));
    let over = Coordinate { seconds: Rational { num: 600001, denom: 10000 }, ..c };
    assert!(!over.within(90));
    assert!(over.within(91));
    let none = Coordinate { seconds: Rational { num: 0, denom: 0 }, ..c };
    assert!(!none.within(255));
}

#[test]
fn largest_parts_do_not_overflow() {
    let max = u32::MAX;
    let c = Coordinate {
        degrees: Rational { num: max, denom: max },
        minutes: Rational { num: max, denom: max },
        seconds: Rational { num: max, denom: max },
        negative: true,
    };
    let m = max as i128;
    let f = c.decimal().unwrap();
    assert_eq!(f.num, -(3600 * m * m * m + 60 * m * m * m + m * m * m));
    assert_eq!(f.den, (3600 * m * m * m) as u128);
}

#[test]
fn datetime_prefers_original_capture() {
    let mut fields = TagStore::new();
    fields.insert(Tag::DateTime, text_field("2020:01:01 00:00:00"));
    assert_eq!(extract_datetime(&fields).as_deref(), Some("2020-01-01T00:00:00"));
    fields.insert(Tag::DateTimeOriginal, text_field("2024:03:15 10:20:30"));
    assert_eq!(extract_datetime(&fields).as_deref(), Some("2024-03-15T10:20:30"));
    fields.remove(Tag::DateTime);
    assert_eq!(extract_datetime(&fields).as_deref(), Some("2024-03-15T10:20:30"));
    fields.remove(Tag::DateTimeOriginal);
    assert_eq!(extract_datetime(&fields), None);
}

#[test]
fn malformed_datetime_is_kept_verbatim() {
    let mut fields = TagStore::new();
    fields.insert(Tag::DateTimeOriginal, text_field("unknown"));
    assert_eq!(extract_datetime(&fields).as_deref(), Some("unknown"));
    fields.insert(Tag::DateTimeOriginal, text_field("2024:03:15 10:20:30 JST"));
    assert_eq!(extract_datetime(&fields).as_deref(), Some("2024:03:15 10:20:30 JST"));
}

#[test]
fn camera_is_trimmed_and_needs_both() {
    let fields = full();
    let camera = extract_camera(&fields).unwrap();
    assert_eq!(camera.make, "Canon");
    assert_eq!(camera.model, "EOS R5");

    let mut no_make = full();
    no_make.remove(Tag::Make);
    assert!(extract_camera(&no_make).is_none());

    let mut no_model = full();
    no_model.remove(Tag::Model);
    assert!(extract_camera(&no_model).is_none());
}

#[test]
fn empty_camera_names_are_not_replaced() {
    let mut fields = TagStore::new();
    fields.insert(Tag::Make, text_field("   "));
    fields.insert(Tag::Model, text_field(""));
    let camera = extract_camera(&fields).unwrap();
    assert_eq!(camera.make, "");
    assert_eq!(camera.model, "");
}

#[test]
fn image_size_falls_back_per_side() {
    let mut fields = TagStore::new();
    assert_eq!(extract_image_size(&fields), (None, None));
    fields.insert(Tag::ImageWidth, unsigned_field(640));
    fields.insert(Tag::ImageLength, unsigned_field(480));
    assert_eq!(extract_image_size(&fields), (Some(640), Some(480)));
    fields.insert(Tag::PixelXDimension, unsigned_field(6000));
    assert_eq!(extract_image_size(&fields), (Some(6000), Some(480)));
    fields.insert(Tag::PixelYDimension, unsigned_field(4000));
    assert_eq!(extract_image_size(&fields), (Some(6000), Some(4000)));
    fields.remove(Tag::ImageWidth);
    fields.remove(Tag::ImageLength);
    assert_eq!(extract_image_size(&fields), (Some(6000), Some(4000)));
}

#[test]
fn misshapen_preferred_size_does_not_fall_back() {
    let mut fields = TagStore::new();
    fields.insert(Tag::PixelXDimension, text_field("wide"));
    fields.insert(Tag::ImageWidth, unsigned_field(640));
    fields.insert(Tag::ImageLength, unsigned_field(480));
    assert_eq!(extract_image_size(&fields), (None, Some(480)));
}

#[test]
fn iso_is_an_unsigned_integer() {
    let mut fields = TagStore::new();
    assert_eq!(extract_iso(&fields), None);
    fields.insert(Tag::PhotographicSensitivity, unsigned_field(3200));
    assert_eq!(extract_iso(&fields), Some(3200));
    fields.insert(Tag::PhotographicSensitivity, rational_field(&[(3200, 1)]));
    assert_eq!(extract_iso(&fields), None);
}

#[test]
fn rational_conversion() {
    let mut fields = TagStore::new();
    fields.insert(Tag::FNumber, rational_field(&[(28, 10)]));
    let aperture = extract_aperture(&fields).unwrap();
    assert_eq!(aperture, Rational { num: 28, denom: 10 });
    assert_eq!(aperture.num as f64 / aperture.denom as f64, 2.8);
}

#[test]
fn optics_take_the_first_fraction() {
    let mut fields = TagStore::new();
    fields.insert(Tag::FNumber, rational_field(&[(4, 1), (8, 1)]));
    fields.insert(Tag::ExposureTime, rational_field(&[(1, 250)]));
    fields.insert(Tag::FocalLength, rational_field(&[(85, 1), (0, 0)]));
    assert_eq!(extract_aperture(&fields), Some(Rational { num: 4, denom: 1 }));
    assert_eq!(extract_shutter_speed(&fields), Some(Rational { num: 1, denom: 250 }));
    assert_eq!(extract_focal_length(&fields), Some(Rational { num: 85, denom: 1 }));
}

#[test]
fn misshapen_optics_are_absent() {
    let mut fields = TagStore::new();
    fields.insert(Tag::FNumber, rational_field(&[]));
    fields.insert(Tag::ExposureTime, unsigned_field(1));
    fields.insert(Tag::FocalLength, text_field("50 mm"));
    assert_eq!(extract_aperture(&fields), None);
    assert_eq!(extract_shutter_speed(&fields), None);
    assert_eq!(extract_focal_length(&fields), None);
}

#[test]
fn independent_field_absence() {
    let mut fields = full();
    fields.remove(Tag::Make);
    let data = extract_all(&fields);
    assert!(data.camera.is_none());
    assert_eq!(data.iso, Some(400));
    assert_eq!(data.width, Some(8192));
    assert_eq!(data.height, Some(5464));
    let gps = data.gps.unwrap();
    assert_eq!(degrees(&gps.lat), 35.5);
    assert_eq!(degrees(&gps.lng), 139.75);
    assert_eq!(data.datetime.as_deref(), Some("2024-03-15T10:20:30"));
    assert_eq!(data.aperture, Some(Rational { num: 28, denom: 10 }));
    assert_eq!(data.shutter_speed, Some(Rational { num: 1, denom: 250 }));
    assert_eq!(data.focal_length, Some(Rational { num: 50, denom: 1 }));
}

#[test]
fn every_tag_is_missed_only_where_it_is_read() {
    let whole = extract_all(&full());
    for i in 0..16 {
        let tag = Tag::at(i);
        let mut fields = full();
        fields.remove(tag);
        let data = extract_all(&fields);
        let gps_tag = matches!(
            tag,
            Tag::GpsLatitude | Tag::GpsLatitudeRef | Tag::GpsLongitude | Tag::GpsLongitudeRef
        );
        assert_eq!(data.gps.is_some(), !gps_tag);
        assert_eq!(data.datetime.is_some(), tag != Tag::DateTimeOriginal);
        assert_eq!(data.camera.is_some(), tag != Tag::Make && tag != Tag::Model);
        assert_eq!(data.width.is_some(), tag != Tag::PixelXDimension);
        assert_eq!(data.height.is_some(), tag != Tag::PixelYDimension);
        assert_eq!(data.iso.is_some(), tag != Tag::PhotographicSensitivity);
        assert_eq!(data.aperture.is_some(), tag != Tag::FNumber);
        assert_eq!(data.shutter_speed.is_some(), tag != Tag::ExposureTime);
        assert_eq!(data.focal_length.is_some(), tag != Tag::FocalLength);
        if !gps_tag {
            assert_eq!(data.gps, whole.gps);
        }
    }
}

#[test]
fn empty_container_gives_an_empty_record() {
    let data = extract_all(&TagStore::new());
    assert!(data.gps.is_none());
    assert!(data.datetime.is_none());
    assert!(data.camera.is_none());
    assert!(data.width.is_none());
    assert!(data.height.is_none());
    assert!(data.iso.is_none());
    assert!(data.aperture.is_none());
    assert!(data.shutter_speed.is_none());
    assert!(data.focal_length.is_none());
}
