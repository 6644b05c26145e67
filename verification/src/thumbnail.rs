//! Derivation of a bounded preview: decode, scale to fit, encode as JPEG,
//! and package as an inline data URI.
//!
//! Rasters are decoded, scaled and encoded by the `image` crate and the
//! payload is encoded by the `base64` crate. What this module takes from
//! them is believed, not proved. Decoding, scaling and encoding work on
//! pixels in floating point, and nothing here rests on two runs of them
//! giving the same pixels: each is a relation between what goes in and
//! what comes out, not a function. What is claimed of an outcome beyond
//! that holds of every outcome: the size of a scaled raster, and the first
//! two bytes of a JPEG stream.

use vstd::prelude::*;
use vstd::string::*;
use crate::error::{locate, located, PhotoError, PhotoErrorView};
use crate::source::SourceFile;

verus! {

/// `image::DynamicImage`, a raster in memory. Nothing is known of its
/// inside; it is only handed back to the crate that made it.
#[verifier::external_type_specification]
#[verifier::external_body]
pub struct ExDynamicImage(image::DynamicImage);

/// `image::ImageError`, why a raster was not decoded or encoded. Nothing is
/// known of its inside.
#[verifier::external_type_specification]
#[verifier::external_body]
pub struct ExImageError(image::ImageError);

/// The longest side of a preview unless the caller asks for another.
pub const THUMBNAIL_SIZE: u32 = 200;

/// The longest side that a JPEG can have.
pub const MAX_JPEG_SIDE: u32 = 65535;

/// The width in pixels that `image::DynamicImage::width` reports.
pub uninterp spec fn image_width(image: image::DynamicImage) -> u32;

/// The height in pixels that `image::DynamicImage::height` reports.
pub uninterp spec fn image_height(image: image::DynamicImage) -> u32;

/// The text that an `image::ImageError` prints.
pub uninterp spec fn image_error_text(error: image::ImageError) -> Seq<char>;

/// The standard base64 encoding, padded, that the engine
/// `base64::engine::general_purpose::STANDARD` gives.
pub uninterp spec fn base64_standard(bytes: Seq<u8>) -> Seq<char>;

/// Whether `outcome` is what `image::load_from_memory` gave for `bytes`.
pub uninterp spec fn is_decoding_of(
    bytes: Seq<u8>,
    outcome: Result<image::DynamicImage, image::ImageError>,
) -> bool;

/// Whether `scaled` is what `image::DynamicImage::resize` with the Lanczos
/// filter of three lobes gave for `image` and a box of `nwidth` by
/// `nheight`.
pub uninterp spec fn is_resize_of(
    scaled: image::DynamicImage,
    image: image::DynamicImage,
    nwidth: u32,
    nheight: u32,
) -> bool;

/// Whether `outcome` is what `image::DynamicImage::write_to` gave for
/// `image` and the format JPEG: the bytes written, or the error.
pub uninterp spec fn is_jpeg_of(
    image: image::DynamicImage,
    outcome: Result<Seq<u8>, image::ImageError>,
) -> bool;

/// Whether a raster of `width` by `height` is a source of `source_width` by
/// `source_height` scaled, with its proportions kept, to the largest size
/// that fits a box of `nwidth` by `nheight`.
///
/// The raster has at least one pixel each way and does not leave the box.
/// Where the source has pixels, one side fills the box and the other is off
/// its exact proportion by one pixel at most.
pub open spec fn scaled_within(
    width: int,
    height: int,
    source_width: int,
    source_height: int,
    nwidth: int,
    nheight: int,
) -> bool {
    &&& 1 <= width <= nwidth
    &&& 1 <= height <= nheight
    &&& source_width >= 1 && source_height >= 1 ==> {
        ||| {
            &&& width == nwidth
            &&& -source_width <= height * source_width - source_height * nwidth <= source_width
        }
        ||| {
            &&& height == nheight
            &&& -source_height <= width * source_height - source_width * nheight <= source_height
        }
    }
}

/// Whether the rasters that scaling a source of `width` pixels across into
/// a box of `bound` by `bound` allocates can be addressed: the scaler works
/// on rows of the source's width and the box's height, sixteen bytes to the
/// pixel.
pub open spec fn fits_in_memory(width: int, bound: int) -> bool {
    width * bound * 16 <= isize::MAX && bound * bound * 16 <= isize::MAX
}

/// Whether a preview with the longest side `bound` can be made of a source
/// of `width` pixels across: a side of a JPEG has at least one pixel and at
/// most [`MAX_JPEG_SIDE`].
pub open spec fn is_renderable(width: u32, bound: u32) -> bool {
    1 <= bound <= MAX_JPEG_SIDE && fits_in_memory(width as int, bound as int)
}

/// Whether so many bytes have a base64 encoding whose length is a `usize`.
pub open spec fn base64_fits(len: nat) -> bool {
    len / 3 * 4 + 4 <= usize::MAX
}

/// Whether `bytes` begin as every JPEG stream does, with `FF D8`.
pub open spec fn starts_as_jpeg(bytes: Seq<u8>) -> bool {
    bytes.len() >= 2 && bytes[0] == 0xFF && bytes[1] == 0xD8
}

/// What encoding gave, the stream as a sequence of bytes.
pub open spec fn stream_view(encoded: Result<Vec<u8>, image::ImageError>) -> Result<
    Seq<u8>,
    image::ImageError,
> {
    match encoded {
        Ok(jpeg) => Ok(jpeg@),
        Err(error) => Err(error),
    }
}

/// Calls `image::load_from_memory`, which guesses the format from the
/// bytes and decodes the raster.
///
/// The contract only says that the outcome is one that the call gave for
/// these bytes, [`is_decoding_of`]. Nothing is claimed of which.
#[verifier::external_body]
fn decode(bytes: &[u8]) -> (outcome: Result<image::DynamicImage, image::ImageError>)
    ensures
        is_decoding_of(bytes@, outcome),
{
    image::load_from_memory(bytes)
}

/// Calls `image::DynamicImage::width`.
///
/// The contract only gives the outcome its name, [`image_width`].
#[verifier::external_body]
fn width_of(image: &image::DynamicImage) -> (width: u32)
    ensures
        width == image_width(*image),
{
    image.width()
}

/// Calls `image::DynamicImage::height`.
///
/// The contract only gives the outcome its name, [`image_height`].
#[verifier::external_body]
fn height_of(image: &image::DynamicImage) -> (height: u32)
    ensures
        height == image_height(*image),
{
    image.height()
}

/// Calls `image::DynamicImage::resize` with the Lanczos filter of three
/// lobes.
///
/// The contract says that the outcome is one that the call gave for this
/// raster and box, [`is_resize_of`], and says of its size what the crate
/// documents: the proportions are kept and the raster is the largest that
/// fits the box. The crate rounds each side to the nearest whole pixel and
/// gives it at least one; [`scaled_within`] allows for that. Nothing is
/// claimed of the pixels. The inputs left out are those on which a raster
/// the crate allocates would outgrow the address space.
#[verifier::external_body]
fn resize(image: &image::DynamicImage, nwidth: u32, nheight: u32) -> (scaled: image::DynamicImage)
    requires
        image_width(*image) * nheight * 16 <= isize::MAX,
        nwidth * nheight * 16 <= isize::MAX,
    ensures
        is_resize_of(scaled, *image, nwidth, nheight),
        nwidth >= 1 && nheight >= 1 ==> scaled_within(
            image_width(scaled) as int,
            image_height(scaled) as int,
            image_width(*image) as int,
            image_height(*image) as int,
            nwidth as int,
            nheight as int,
        ),
{
    image.resize(nwidth, nheight, image::imageops::FilterType::Lanczos3)
}

/// Calls `image::DynamicImage::write_to` for the format JPEG on an empty
/// buffer in memory.
///
/// The contract says that the outcome is one that the call gave for this
/// raster, [`is_jpeg_of`], and says of the bytes written that they begin
/// with the marker `FF D8`, which the crate's encoder writes before
/// anything else. Nothing is claimed of when the call succeeds.
#[verifier::external_body]
fn encode_jpeg(image: &image::DynamicImage) -> (outcome: Result<Vec<u8>, image::ImageError>)
    ensures
        is_jpeg_of(*image, stream_view(outcome)),
        outcome matches Ok(bytes) ==> starts_as_jpeg(bytes@),
{
    let mut buffer = std::io::Cursor::new(Vec::new());
    match image.write_to(&mut buffer, image::ImageFormat::Jpeg) {
        Ok(()) => Ok(buffer.into_inner()),
        Err(error) => Err(error),
    }
}

/// Prints an `image::ImageError`.
///
/// The contract only gives the outcome its name, [`image_error_text`].
#[verifier::external_body]
fn describe(error: &image::ImageError) -> (text: String)
    ensures
        text@ == image_error_text(*error),
{
    error.to_string()
}

/// Calls `encode` of the engine `base64::engine::general_purpose::STANDARD`.
///
/// The contract only gives the outcome its name, [`base64_standard`]. The
/// inputs left out are those whose encoded length is no `usize`.
#[verifier::external_body]
fn encode_base64(bytes: &[u8]) -> (text: String)
    requires
        base64_fits(bytes@.len()),
    ensures
        text@ == base64_standard(bytes@),
{
    base64::Engine::encode(&base64::engine::general_purpose::STANDARD, bytes)
}

/// The data URI of a JPEG stream: the scheme, the media type, and the
/// stream in base64.
pub open spec fn jpeg_data_uri(jpeg: Seq<u8>) -> Seq<char> {
    "data:image/jpeg;base64,"@ + base64_standard(jpeg)
}

/// Whether `uri` is the data URI of some stream of bytes that begins as a
/// JPEG does.
pub open spec fn is_jpeg_data_uri(uri: Seq<char>) -> bool {
    exists|jpeg: Seq<u8>| starts_as_jpeg(jpeg) && uri == #[trigger] jpeg_data_uri(jpeg)
}

/// The detail of a decoding failure: a fixed sentence, the path and the
/// cause.
pub open spec fn decode_failure(path: Seq<char>, cause: Seq<char>) -> Seq<char> {
    "画像の読み込みに失敗: "@ + located(path, cause)
}

/// The detail of an encoding failure: a fixed sentence, the path and the
/// cause.
pub open spec fn encode_failure(path: Seq<char>, cause: Seq<char>) -> Seq<char> {
    "サムネイルのエンコードに失敗: "@ + located(path, cause)
}

/// Why a bound is refused.
pub open spec fn bound_refused() -> Seq<char> {
    "no JPEG preview can have this bound"@
}

/// Why a stream is refused.
pub open spec fn stream_refused() -> Seq<char> {
    "the JPEG stream is too long for a data URI"@
}

/// Whether `outcome` has the value `expected`.
pub open spec fn is_outcome(
    outcome: Result<String, PhotoError>,
    expected: Result<Seq<char>, PhotoErrorView>,
) -> bool {
    match outcome {
        Ok(uri) => expected == Ok::<Seq<char>, PhotoErrorView>(uri@),
        Err(error) => expected == Err::<Seq<char>, PhotoErrorView>(error@),
    }
}

/// The data URI of a JPEG stream, unless the stream is too long to be
/// encoded.
pub open spec fn packaging(path: Seq<char>, jpeg: Seq<u8>) -> Result<Seq<char>, PhotoErrorView> {
    if base64_fits(jpeg.len()) {
        Ok(jpeg_data_uri(jpeg))
    } else {
        Err(PhotoErrorView::ThumbnailGenerationError(encode_failure(path, stream_refused())))
    }
}

/// What encoding a preview comes to: the data URI of the stream, or an
/// encoding failure with the path and the encoder's words.
pub open spec fn encoded_outcome(
    path: Seq<char>,
    encoded: Result<Seq<u8>, image::ImageError>,
) -> Result<Seq<char>, PhotoErrorView> {
    match encoded {
        Ok(jpeg) => packaging(path, jpeg),
        Err(error) => Err(
            PhotoErrorView::ThumbnailGenerationError(
                encode_failure(path, image_error_text(error)),
            ),
        ),
    }
}

/// Whether `preview` is `image` scaled into a box of `bound` by `bound`:
/// the scaler gave it for that raster and box, it has at least one pixel
/// each way, its longer side is at most `bound`, and its proportions are
/// those of `image` within one pixel.
pub open spec fn is_preview_of(
    preview: image::DynamicImage,
    image: image::DynamicImage,
    bound: u32,
) -> bool {
    &&& is_resize_of(preview, image, bound, bound)
    &&& scaled_within(
        image_width(preview) as int,
        image_height(preview) as int,
        image_width(image) as int,
        image_height(image) as int,
        bound as int,
        bound as int,
    )
}

/// Whether `uri` holds a preview of `image`: the data URI of a JPEG stream
/// that the encoder gave for `image` scaled into a box of `bound` by
/// `bound`.
pub open spec fn is_preview_uri(uri: Seq<char>, image: image::DynamicImage, bound: u32) -> bool {
    exists|preview: image::DynamicImage, jpeg: Seq<u8>|
        {
            &&& is_preview_of(preview, image, bound)
            &&& #[trigger] is_jpeg_of(preview, Ok(jpeg))
            &&& starts_as_jpeg(jpeg)
            &&& uri == jpeg_data_uri(jpeg)
        }
}

/// Whether `outcome` is the preview of a decoded raster.
///
/// A bound that no JPEG can have is an encoding failure. Under any other
/// bound the raster is scaled into the box and encoded, and the outcome is
/// what [`encoded_outcome`] makes of the encoding.
pub open spec fn is_rendering(
    outcome: Result<String, PhotoError>,
    path: Seq<char>,
    image: image::DynamicImage,
    bound: u32,
) -> bool {
    if !is_renderable(image_width(image), bound) {
        is_outcome(
            outcome,
            Err(PhotoErrorView::ThumbnailGenerationError(encode_failure(path, bound_refused()))),
        )
    } else {
        exists|preview: image::DynamicImage, encoded: Result<Seq<u8>, image::ImageError>|
            {
                &&& is_preview_of(preview, image, bound)
                &&& #[trigger] is_jpeg_of(preview, encoded)
                &&& encoded matches Ok(jpeg) ==> starts_as_jpeg(jpeg)
                &&& is_outcome(outcome, encoded_outcome(path, encoded))
            }
    }
}

/// Whether `outcome` is the preview of what decoding gave: the preview of
/// the raster, or a decoding failure with the path and the decoder's words.
pub open spec fn is_decoded_outcome(
    outcome: Result<String, PhotoError>,
    path: Seq<char>,
    decoded: Result<image::DynamicImage, image::ImageError>,
    bound: u32,
) -> bool {
    match decoded {
        Ok(image) => is_rendering(outcome, path, image, bound),
        Err(error) => is_outcome(
            outcome,
            Err(
                PhotoErrorView::ImageProcessError(decode_failure(path, image_error_text(error))),
            ),
        ),
    }
}

/// Whether `outcome` is what deriving the preview of a file comes to.
///
/// A missing file is not found, whatever the path. An unreadable file is a
/// decoding failure. The bytes of a file are decoded, and the outcome is
/// the preview of what decoding gave for them.
pub open spec fn is_thumbnail_outcome(
    outcome: Result<String, PhotoError>,
    path: Seq<char>,
    file: SourceFile,
    bound: u32,
) -> bool {
    match file {
        SourceFile::Missing => is_outcome(outcome, Err(PhotoErrorView::FileNotFound(path))),
        SourceFile::Unreadable(cause) => is_outcome(
            outcome,
            Err(PhotoErrorView::ImageProcessError(decode_failure(path, cause@))),
        ),
        SourceFile::Loaded(bytes) => exists|
            decoded: Result<image::DynamicImage, image::ImageError>,
        |
            {
                &&& #[trigger] is_decoding_of(bytes@, decoded)
                &&& is_decoded_outcome(outcome, path, decoded, bound)
            },
    }
}

/// Whether `uri` holds a preview of the image that `bytes` hold: they
/// decode to a raster, and `uri` holds a preview of that raster.
pub open spec fn is_thumbnail_uri(uri: Seq<char>, bytes: Seq<u8>, bound: u32) -> bool {
    exists|image: image::DynamicImage|
        #[trigger] is_decoding_of(bytes, Ok(image)) && is_preview_uri(uri, image, bound)
}

/// The longer side of a preview fills the box, and the shorter side is the
/// source's proportion of it within one pixel. A source that is no square
/// is scaled by its longer side, be it larger than the box or smaller.
pub proof fn lemma_preview_size(
    width: int,
    height: int,
    source_width: int,
    source_height: int,
    bound: int,
)
    requires
        scaled_within(width, height, source_width, source_height, bound, bound),
        source_width >= 1,
        source_height >= 1,
    ensures
        1 <= width <= bound,
        1 <= height <= bound,
        width == bound || height == bound,
        source_width > source_height ==> width == bound && -source_width <= height * source_width
            - source_height * bound <= source_width,
        source_height > source_width ==> height == bound && -source_height <= width
            * source_height - source_width * bound <= source_height,
        source_width == source_height ==> bound - 1 <= width && bound - 1 <= height,
{
    if source_width > source_height {
        lemma_longer_side_fills(width, height, source_width, source_height, bound);
    } else if source_height > source_width {
        lemma_longer_side_fills(height, width, source_height, source_width, bound);
    } else {
        assert(-source_height <= width * source_height - source_height * bound ==> bound - 1
            <= width) by (nonlinear_arith)
            requires
                source_height >= 1,
        ;
        assert(-source_width <= height * source_width - source_width * bound ==> bound - 1
            <= height) by (nonlinear_arith)
            requires
                source_width >= 1,
        ;
    }
}

/// Of a source whose `long` side exceeds its `short` side, scaled into a
/// square box, the side `along` the long one fills the box.
proof fn lemma_longer_side_fills(along: int, across: int, long: int, short: int, bound: int)
    requires
        1 <= along <= bound,
        1 <= across <= bound,
        long > short >= 1,
        (along == bound && -long <= across * long - short * bound <= long) || (across == bound
            && -short <= along * short - long * bound <= short),
    ensures
        along == bound,
        -long <= across * long - short * bound <= long,
{
    if !(along == bound && -long <= across * long - short * bound <= long) {
        assert(long * bound >= (short + 1) * bound) by (nonlinear_arith)
            requires
                long >= short + 1,
                bound >= 0,
        ;
        assert((short + 1) * bound == short * bound + bound) by (nonlinear_arith);
        assert(along * short > short * (bound - 1)) by (nonlinear_arith)
            requires
                along * short >= short * bound + bound - short,
                bound >= 1,
        ;
        assert(along > bound - 1) by (nonlinear_arith)
            requires
                along * short > short * (bound - 1),
                short >= 1,
        ;
    }
}

/// Whether a preview with the longest side `bound` can be made of a source
/// of `width` pixels across.
fn renderable(width: u32, bound: u32) -> (b: bool)
    ensures
        b == is_renderable(width, bound),
{
    if bound < 1 || bound > MAX_JPEG_SIDE {
        return false;
    }
    assert(0 <= width * bound <= 0xFFFF_FFFF * 0xFFFF && 0 <= bound * bound <= 0xFFFF * 0xFFFF)
        by (nonlinear_arith)
        requires
            0 <= width <= 0xFFFF_FFFF,
            0 <= bound <= 0xFFFF,
    ;
    let limit: u128 = isize::MAX as u128;
    let rows: u128 = (width as u128) * (bound as u128) * 16;
    let square: u128 = (bound as u128) * (bound as u128) * 16;
    rows <= limit && square <= limit
}

/// An encoding failure at `path` with its cause.
fn encoding_failed(path: &str, cause: &str) -> (error: PhotoError)
    ensures
        error@ == PhotoErrorView::ThumbnailGenerationError(encode_failure(path@, cause@)),
{
    PhotoError::ThumbnailGenerationError(
        String::from_str("サムネイルのエンコードに失敗: ").concat(locate(path, cause).as_str()),
    )
}

/// A decoding failure at `path` with its cause.
fn decoding_failed(path: &str, cause: &str) -> (error: PhotoError)
    ensures
        error@ == PhotoErrorView::ImageProcessError(decode_failure(path@, cause@)),
{
    PhotoError::ImageProcessError(
        String::from_str("画像の読み込みに失敗: ").concat(locate(path, cause).as_str()),
    )
}

/// Width and height of a raster in pixels.
pub fn raster_size(image: &image::DynamicImage) -> (size: (u32, u32))
    ensures
        size.0 == image_width(*image),
        size.1 == image_height(*image),
{
    (width_of(image), height_of(image))
}

/// Scales a raster, with its proportions kept, to the largest size that
/// fits a box of `bound` by `bound` pixels.
///
/// A raster smaller than the box is scaled up to it. The longer side of the
/// result is at most `bound`, and the shorter side is off the source's
/// proportion by one pixel at most. Gives nothing where no preview with
/// that bound can be made: for a bound of 0, for one beyond
/// [`MAX_JPEG_SIDE`], and where the rasters would outgrow the address
/// space.
pub fn scale_to_fit(image: &image::DynamicImage, bound: u32) -> (scaled: Option<
    image::DynamicImage,
>)
    ensures
        scaled is Some <==> is_renderable(image_width(*image), bound),
        scaled matches Some(preview) ==> is_preview_of(preview, *image, bound),
{
    if renderable(width_of(image), bound) {
        Some(resize(image, bound, bound))
    } else {
        None
    }
}

/// Wraps a base64 payload as a JPEG data URI.
pub fn data_uri(payload: &str) -> (uri: String)
    ensures
        uri@ == "data:image/jpeg;base64,"@ + payload@,
{
    String::from_str("data:image/jpeg;base64,").concat(payload)
}

/// Packages a JPEG stream, made for the file at `path`, as a data URI.
pub fn package_jpeg(path: &str, jpeg: &[u8]) -> (outcome: Result<String, PhotoError>)
    ensures
        is_outcome(outcome, packaging(path@, jpeg@)),
        outcome is Ok <==> base64_fits(jpeg@.len()),
{
    let len = jpeg.len();
    if len / 3 <= (usize::MAX - 4) / 4 {
        let payload = encode_base64(jpeg);
        Ok(data_uri(payload.as_str()))
    } else {
        Err(encoding_failed(path, "the JPEG stream is too long for a data URI"))
    }
}

/// Packages what encoding a preview of the file at `path` gave: the stream
/// as a data URI, or the encoder's words as an encoding failure.
pub fn thumbnail_from_encoded(path: &str, encoded: Result<Vec<u8>, image::ImageError>) -> (outcome:
    Result<String, PhotoError>)
    ensures
        is_outcome(outcome, encoded_outcome(path@, stream_view(encoded))),
        outcome is Ok <==> (encoded matches Ok(jpeg) && base64_fits(jpeg@.len())),
{
    match encoded {
        Ok(jpeg) => package_jpeg(path, jpeg.as_slice()),
        Err(error) => Err(encoding_failed(path, describe(&error).as_str())),
    }
}

/// Makes the preview of a raster decoded from the file at `path`: scales it
/// into a box of `bound` by `bound`, whether it is larger than the box or
/// smaller, encodes it as JPEG and packages the stream as a data URI.
///
/// An `Ok` holds the encoding of the scaled raster, whose longer side is at
/// most `bound`.
pub fn render_thumbnail(path: &str, image: &image::DynamicImage, bound: u32) -> (outcome: Result<
    String,
    PhotoError,
>)
    ensures
        is_rendering(outcome, path@, *image, bound),
        outcome matches Ok(uri) ==> is_preview_uri(uri@, *image, bound) && is_jpeg_data_uri(uri@),
        outcome matches Err(error) ==> error is ThumbnailGenerationError,
        outcome is Ok ==> is_renderable(image_width(*image), bound),
{
    let preview = match scale_to_fit(image, bound) {
        Some(preview) => preview,
        None => {
            return Err(encoding_failed(path, "no JPEG preview can have this bound"));
        },
    };
    thumbnail_from_encoded(path, encode_jpeg(&preview))
}

/// Makes the preview of what decoding the file at `path` gave: of the
/// raster, or the decoding failure.
pub fn thumbnail_from_decoded(
    path: &str,
    decoded: Result<image::DynamicImage, image::ImageError>,
    bound: u32,
) -> (outcome: Result<String, PhotoError>)
    ensures
        is_decoded_outcome(outcome, path@, decoded, bound),
        outcome matches Ok(uri) ==> (decoded matches Ok(image) && is_preview_uri(uri@, image, bound)
            && is_jpeg_data_uri(uri@)),
{
    match decoded {
        Ok(image) => render_thumbnail(path, &image, bound),
        Err(error) => Err(decoding_failed(path, describe(&error).as_str())),
    }
}

/// Derives the preview of the photo at `path`, given what reading the file
/// gave: a JPEG whose longest side is at most `max_dimension`, as a data
/// URI.
///
/// A missing file is not found, whatever the path. An unreadable file is a
/// decoding failure. The bytes of a file are decoded, scaled and encoded,
/// and the outcome is what [`thumbnail_from_decoded`] makes of their
/// decoding. An `Ok` holds the encoding of the decoded raster scaled into a
/// box of `max_dimension` by `max_dimension`.
pub fn generate_thumbnail(path: &str, file: &SourceFile, max_dimension: u32) -> (outcome: Result<
    String,
    PhotoError,
>)
    ensures
        is_thumbnail_outcome(outcome, path@, *file, max_dimension),
        file is Missing ==> (outcome matches Err(PhotoError::FileNotFound(p)) && p@ == path@),
        outcome matches Ok(uri) ==> (file matches SourceFile::Loaded(bytes) && is_thumbnail_uri(
            uri@,
            bytes@,
            max_dimension,
        ) && is_jpeg_data_uri(uri@)),
{
    match file {
        SourceFile::Missing => Err(PhotoError::FileNotFound(String::from_str(path))),
        SourceFile::Unreadable(cause) => Err(decoding_failed(path, cause.as_str())),
        SourceFile::Loaded(bytes) => {
            thumbnail_from_decoded(path, decode(bytes.as_slice()), max_dimension)
        },
    }
}

} // verus!
