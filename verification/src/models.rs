//! The records that the library hands out.

use vstd::prelude::*;
use vstd::string::*;

verus! {

/// An unsigned fraction as the container stores it: two 32-bit integers.
///
/// The denominator may be zero; the fraction then stands for no number.
#[derive(Debug, Clone, Copy, PartialEq, Eq, Structural)]
pub struct Rational {
    pub num: u32,
    pub denom: u32,
}

/// An exact signed fraction of two integers, `den` not zero.
#[derive(Debug, Clone, Copy, PartialEq, Eq, Structural)]
pub struct Fraction {
    pub num: i128,
    pub den: u128,
}

/// One axis of a position: degrees, minutes and seconds of arc, and whether
/// the axis points south or west.
#[derive(Debug, Clone, Copy, PartialEq, Eq, Structural)]
pub struct Coordinate {
    pub degrees: Rational,
    pub minutes: Rational,
    pub seconds: Rational,
    /// True for the southern and the western hemisphere.
    pub negative: bool,
}

impl Coordinate {
    /// Whether the three parts are numbers, that is, no denominator is zero.
    pub open spec fn is_defined(self) -> bool {
        self.degrees.denom != 0 && self.minutes.denom != 0 && self.seconds.denom != 0
    }

    /// The common denominator of `degrees + minutes / 60 + seconds / 3600`.
    pub open spec fn denominator(self) -> int {
        3600 * (self.degrees.denom * self.minutes.denom * self.seconds.denom)
    }

    /// The numerator of `degrees + minutes / 60 + seconds / 3600` over
    /// [`Coordinate::denominator`], before the hemisphere is applied.
    pub open spec fn magnitude(self) -> int {
        3600 * (self.degrees.num * self.minutes.denom * self.seconds.denom) + 60 * (
        self.minutes.num * self.degrees.denom * self.seconds.denom) + self.seconds.num
            * self.degrees.denom * self.minutes.denom
    }

    /// The numerator of the signed decimal degrees over
    /// [`Coordinate::denominator`]: the magnitude, negated in the southern
    /// and the western hemisphere.
    pub open spec fn numerator(self) -> int {
        if self.negative {
            -self.magnitude()
        } else {
            self.magnitude()
        }
    }

    /// The same axis in the opposite hemisphere.
    pub open spec fn mirrored(self) -> Coordinate {
        Coordinate { negative: !self.negative, ..self }
    }

    /// Whether the axis is a number of degrees, and one of at most `limit`
    /// degrees to either side: no denominator is zero, and
    /// `degrees + minutes / 60 + seconds / 3600` does not exceed `limit`.
    pub open spec fn is_within(self, limit: int) -> bool {
        self.is_defined() && self.magnitude() <= limit * self.denominator()
    }

    /// Magnitude and denominator of the decimal degrees, where the three
    /// parts are numbers.
    fn parts(&self) -> (parts: Option<(u128, u128)>)
        ensures
            parts is Some <==> self.is_defined(),
            parts matches Some(p) ==> p.0 == self.magnitude() && p.1 == self.denominator()
                && p.0 <= 3661 * 0xFFFF_FFFF_FFFF_FFFF_FFFF_FFFF && 0 < p.1 <= 3600
                * 0xFFFF_FFFF_FFFF_FFFF_FFFF_FFFF,
    {
        if self.degrees.denom == 0 || self.minutes.denom == 0 || self.seconds.denom == 0 {
            return None;
        }
        let dn: u128 = self.degrees.num as u128;
        let dd: u128 = self.degrees.denom as u128;
        let mn: u128 = self.minutes.num as u128;
        let md: u128 = self.minutes.denom as u128;
        let sn: u128 = self.seconds.num as u128;
        let sd: u128 = self.seconds.denom as u128;
        proof {
            lemma_product_bound(dn as int, md as int, sd as int);
            lemma_product_bound(mn as int, dd as int, sd as int);
            lemma_product_bound(sn as int, dd as int, md as int);
            lemma_product_bound(dd as int, md as int, sd as int);
            lemma_product_positive(dd as int, md as int, sd as int);
        }
        let whole: u128 = 3600 * (dn * md * sd);
        let sixtieths: u128 = 60 * (mn * dd * sd);
        let rest: u128 = sn * dd * md;
        Some((whole + sixtieths + rest, 3600 * (dd * md * sd)))
    }

    /// Whether the axis is a number of at most `limit` degrees to either
    /// side.
    pub fn within(&self, limit: u8) -> (b: bool)
        ensures
            b == self.is_within(limit as int),
    {
        match self.parts() {
            Some((magnitude, denominator)) => {
                assert(limit * denominator <= 255 * (3600 * 0xFFFF_FFFF_FFFF_FFFF_FFFF_FFFF))
                    by (nonlinear_arith)
                    requires
                        0 <= limit <= 255,
                        0 < denominator <= 3600 * 0xFFFF_FFFF_FFFF_FFFF_FFFF_FFFF,
                ;
                magnitude <= (limit as u128) * denominator
            },
            None => false,
        }
    }

    /// The signed decimal degrees `degrees + minutes / 60 + seconds / 3600`
    /// as an exact fraction, negative in the southern and the western
    /// hemisphere; `None` where a denominator is zero.
    pub fn decimal(&self) -> (value: Option<Fraction>)
        ensures
            value is Some <==> self.is_defined(),
            value matches Some(f) ==> f.num == self.numerator() && f.den == self.denominator(),
    {
        match self.parts() {
            Some((magnitude, den)) => {
                let num: i128 = if self.negative {
                    -(magnitude as i128)
                } else {
                    magnitude as i128
                };
                Some(Fraction { num, den })
            },
            None => None,
        }
    }
}

/// The product of three 32-bit values stays below 2^96.
proof fn lemma_product_bound(a: int, b: int, c: int)
    requires
        0 <= a < 0x1_0000_0000,
        0 <= b < 0x1_0000_0000,
        0 <= c < 0x1_0000_0000,
    ensures
        0 <= a * b < 0x1_0000_0000_0000_0000,
        0 <= a * b * c < 0x1_0000_0000_0000_0000_0000_0000,
{
    assert(0 <= a * b < 0x1_0000_0000_0000_0000) by (nonlinear_arith)
        requires
            0 <= a < 0x1_0000_0000,
            0 <= b < 0x1_0000_0000,
    ;
    let ab = a * b;
    assert(0 <= ab * c < 0x1_0000_0000_0000_0000_0000_0000) by (nonlinear_arith)
        requires
            0 <= ab < 0x1_0000_0000_0000_0000,
            0 <= c < 0x1_0000_0000,
    ;
}

/// The product of three positive values is positive.
proof fn lemma_product_positive(a: int, b: int, c: int)
    requires
        a > 0,
        b > 0,
        c > 0,
    ensures
        a * b * c > 0,
{
    assert(a * b * c > 0) by (nonlinear_arith)
        requires
            a > 0,
            b > 0,
            c > 0,
    ;
}

/// Crossing the equator or the prime meridian negates the decimal degrees
/// and changes nothing else: the same three parts read in the southern
/// (western) hemisphere give the negated numerator of the northern
/// (eastern) reading, over the same denominator.
pub proof fn lemma_hemisphere_negates(c: Coordinate)
    ensures
        c.mirrored().numerator() == -c.numerator(),
        c.mirrored().denominator() == c.denominator(),
        c.mirrored().is_defined() == c.is_defined(),
        forall|limit: int| c.mirrored().is_within(limit) == c.is_within(limit),
        c.mirrored().mirrored() == c,
{
}

/// With whole numbers of degrees, minutes and seconds the decimal degrees
/// are `(3600 * degrees + 60 * minutes + seconds) / 3600`.
pub proof fn lemma_whole_parts(c: Coordinate)
    requires
        c.degrees.denom == 1,
        c.minutes.denom == 1,
        c.seconds.denom == 1,
    ensures
        c.is_defined(),
        c.denominator() == 3600,
        c.magnitude() == 3600 * c.degrees.num + 60 * c.minutes.num + c.seconds.num,
{
    assert(c.degrees.denom * c.minutes.denom * c.seconds.denom == 1) by (nonlinear_arith)
        requires
            c.degrees.denom == 1,
            c.minutes.denom == 1,
            c.seconds.denom == 1,
    ;
    assert(c.degrees.num * c.minutes.denom * c.seconds.denom == c.degrees.num)
        by (nonlinear_arith)
        requires
            c.minutes.denom == 1,
            c.seconds.denom == 1,
    ;
    assert(c.minutes.num * c.degrees.denom * c.seconds.denom == c.minutes.num)
        by (nonlinear_arith)
        requires
            c.degrees.denom == 1,
            c.seconds.denom == 1,
    ;
    assert(c.seconds.num * c.degrees.denom * c.minutes.denom == c.seconds.num)
        by (nonlinear_arith)
        requires
            c.degrees.denom == 1,
            c.minutes.denom == 1,
    ;
}

/// The most degrees of latitude to either side of the equator.
pub const MAX_LATITUDE: u8 = 90;

/// The most degrees of longitude to either side of the prime meridian.
pub const MAX_LONGITUDE: u8 = 180;

/// A position: latitude and longitude, both present.
#[derive(Debug, Clone, Copy, PartialEq, Eq, Structural)]
pub struct Gps {
    /// Latitude; negative south of the equator.
    pub lat: Coordinate,
    /// Longitude; negative west of the prime meridian.
    pub lng: Coordinate,
}

/// The camera that took the photo.
#[derive(Debug, Clone)]
pub struct CameraInfo {
    /// The maker's name, without surrounding whitespace.
    pub make: String,
    /// The model's name, without surrounding whitespace.
    pub model: String,
}

/// The mathematical value of a [`CameraInfo`].
pub struct CameraInfoView {
    pub make: Seq<char>,
    pub model: Seq<char>,
}

impl Gps {
    /// Whether the position is on the globe: the latitude within 90 degrees
    /// of the equator, the longitude within 180 degrees of the prime
    /// meridian.
    pub open spec fn is_on_globe(self) -> bool {
        self.lat.is_within(MAX_LATITUDE as int) && self.lng.is_within(MAX_LONGITUDE as int)
    }
}

impl View for CameraInfo {
    type V = CameraInfoView;

    open spec fn view(&self) -> CameraInfoView {
        CameraInfoView { make: self.make@, model: self.model@ }
    }
}

/// The characters of an optional text.
pub open spec fn text_view(text: Option<String>) -> Option<Seq<char>> {
    match text {
        Some(t) => Some(t@),
        None => None,
    }
}

/// The metadata found in one photo. Every field is there or not on its own.
#[derive(Debug, Clone)]
pub struct ExifData {
    /// Where the photo was taken.
    pub gps: Option<Gps>,
    /// When the photo was taken, as `YYYY-MM-DDTHH:MM:SS`.
    pub datetime: Option<String>,
    /// The camera.
    pub camera: Option<CameraInfo>,
    /// Width in pixels.
    pub width: Option<u32>,
    /// Height in pixels.
    pub height: Option<u32>,
    /// ISO sensitivity.
    pub iso: Option<u32>,
    /// The f-number.
    pub aperture: Option<Rational>,
    /// The exposure time in seconds.
    pub shutter_speed: Option<Rational>,
    /// The focal length in millimetres.
    pub focal_length: Option<Rational>,
}

/// The mathematical value of an [`ExifData`].
pub struct ExifDataView {
    pub gps: Option<Gps>,
    pub datetime: Option<Seq<char>>,
    pub camera: Option<CameraInfoView>,
    pub width: Option<u32>,
    pub height: Option<u32>,
    pub iso: Option<u32>,
    pub aperture: Option<Rational>,
    pub shutter_speed: Option<Rational>,
    pub focal_length: Option<Rational>,
}

impl View for ExifData {
    type V = ExifDataView;

    open spec fn view(&self) -> ExifDataView {
        ExifDataView {
            gps: self.gps,
            datetime: text_view(self.datetime),
            camera: match self.camera {
                Some(c) => Some(c@),
                None => None,
            },
            width: self.width,
            height: self.height,
            iso: self.iso,
            aperture: self.aperture,
            shutter_speed: self.shutter_speed,
            focal_length: self.focal_length,
        }
    }
}

/// The mathematical value of an optional [`ExifData`].
pub open spec fn exif_view(exif: Option<ExifData>) -> Option<ExifDataView> {
    match exif {
        Some(e) => Some(e@),
        None => None,
    }
}

/// A photo: what the file system says of the file, and what was found in it.
#[derive(Debug, Clone)]
pub struct PhotoData {
    /// The absolute path of the file.
    pub path: String,
    /// The file's name with its extension.
    pub filename: String,
    /// The file's size in bytes.
    pub file_size: u64,
    /// When the file was last changed.
    pub modified_time: String,
    /// The metadata, if any could be read.
    pub exif: Option<ExifData>,
    /// The preview as a data URI, if one could be made.
    pub thumbnail: Option<String>,
}

impl PhotoData {
    /// A photo of which only the file is known yet.
    pub fn new(path: String, filename: String, file_size: u64, modified_time: String) -> (photo:
        PhotoData)
        ensures
            photo.path == path,
            photo.filename == filename,
            photo.file_size == file_size,
            photo.modified_time == modified_time,
            photo.exif is None,
            photo.thumbnail is None,
    {
        PhotoData { path, filename, file_size, modified_time, exif: None, thumbnail: None }
    }

    /// Whether the photo carries a position.
    pub open spec fn spec_has_gps(&self) -> bool {
        self.exif matches Some(e) && e.gps is Some
    }

    /// Whether the photo carries a position.
    #[verifier::when_used_as_spec(spec_has_gps)]
    pub fn has_gps(&self) -> (b: bool)
        ensures
            b == self.spec_has_gps(),
    {
        match &self.exif {
            Some(e) => e.gps.is_some(),
            None => false,
        }
    }

    /// Whether the photo carries the time it was taken.
    pub open spec fn spec_has_datetime(&self) -> bool {
        self.exif matches Some(e) && e.datetime is Some
    }

    /// Whether the photo carries the time it was taken.
    #[verifier::when_used_as_spec(spec_has_datetime)]
    pub fn has_datetime(&self) -> (b: bool)
        ensures
            b == self.spec_has_datetime(),
    {
        match &self.exif {
            Some(e) => e.datetime.is_some(),
            None => false,
        }
    }
}

/// One entry of a directory listing: a folder or an image file.
#[derive(Debug, Clone)]
pub struct DirectoryEntry {
    /// The entry's name.
    pub name: String,
    /// The entry's absolute path.
    pub path: String,
    /// Whether the entry is a folder.
    pub is_directory: bool,
    /// When the entry was last changed.
    pub modified_time: String,
    /// When the photo was taken, if known.
    pub captured_time: Option<String>,
    /// The size in bytes; 0 for a folder.
    pub file_size: u64,
}

/// The listing of one directory.
#[derive(Debug, Clone)]
pub struct DirectoryContent {
    /// The directory that was listed.
    pub current_path: String,
    /// Its parent, unless it is a root.
    pub parent_path: Option<String>,
    /// The folders and image files in it.
    pub entries: Vec<DirectoryEntry>,
}

} // verus!
