//! The failures that reading a photo can end in.

use vstd::prelude::*;
use vstd::string::*;

verus! {

/// Why a photo could not be read or processed.
///
/// Every variant but [`PhotoError::NoGpsData`] carries the detail that is
/// shown after the fixed part of its message.
#[derive(Debug, Clone)]
pub enum PhotoError {
    /// The path does not name an existing file.
    FileNotFound(String),
    /// The file exists but its bytes could not be read.
    FileReadError(String),
    /// The bytes hold no metadata container that can be parsed.
    ExifReadError(String),
    /// A position was asked for and the photo has none.
    NoGpsData,
    /// The bytes could not be decoded as a raster image.
    ImageProcessError(String),
    /// The preview could not be encoded.
    ThumbnailGenerationError(String),
    /// Anything else.
    InternalError(String),
}

/// The mathematical value of a [`PhotoError`]: the same variants, with the
/// detail as a sequence of characters.
pub enum PhotoErrorView {
    FileNotFound(Seq<char>),
    FileReadError(Seq<char>),
    ExifReadError(Seq<char>),
    NoGpsData,
    ImageProcessError(Seq<char>),
    ThumbnailGenerationError(Seq<char>),
    InternalError(Seq<char>),
}

impl PhotoErrorView {
    /// The text shown for the error: a fixed sentence, then the detail.
    pub open spec fn message(self) -> Seq<char> {
        match self {
            PhotoErrorView::FileNotFound(d) => "ファイルが見つかりません: "@ + d,
            PhotoErrorView::FileReadError(d) => "ファイルの読み取りに失敗しました: "@ + d,
            PhotoErrorView::ExifReadError(d) => "EXIF情報の読み取りに失敗しました: "@ + d,
            PhotoErrorView::NoGpsData => "GPS情報が存在しません"@,
            PhotoErrorView::ImageProcessError(d) => "画像処理に失敗しました: "@ + d,
            PhotoErrorView::ThumbnailGenerationError(d) => "サムネイル生成に失敗しました: "@ + d,
            PhotoErrorView::InternalError(d) => "内部エラー: "@ + d,
        }
    }
}

impl View for PhotoError {
    type V = PhotoErrorView;

    open spec fn view(&self) -> PhotoErrorView {
        match self {
            PhotoError::FileNotFound(d) => PhotoErrorView::FileNotFound(d@),
            PhotoError::FileReadError(d) => PhotoErrorView::FileReadError(d@),
            PhotoError::ExifReadError(d) => PhotoErrorView::ExifReadError(d@),
            PhotoError::NoGpsData => PhotoErrorView::NoGpsData,
            PhotoError::ImageProcessError(d) => PhotoErrorView::ImageProcessError(d@),
            PhotoError::ThumbnailGenerationError(d) => PhotoErrorView::ThumbnailGenerationError(d@),
            PhotoError::InternalError(d) => PhotoErrorView::InternalError(d@),
        }
    }
}

/// What went wrong with the file at `path`: the path, a colon and a space,
/// and the cause.
pub open spec fn located(path: Seq<char>, cause: Seq<char>) -> Seq<char> {
    path + ": "@ + cause
}

/// What went wrong with the file at `path`: the path, a colon and a space,
/// and the cause.
pub fn locate(path: &str, cause: &str) -> (text: String)
    ensures
        text@ == located(path@, cause@),
{
    String::from_str(path).concat(": ").concat(cause)
}

/// A fixed sentence followed by a detail.
fn sentence(fixed: &str, detail: &str) -> (text: String)
    ensures
        text@ == fixed@ + detail@,
{
    String::from_str(fixed).concat(detail)
}

impl PhotoError {
    /// The human-readable message of the error.
    pub fn message(&self) -> (text: String)
        ensures
            text@ == self@.message(),
    {
        match self {
            PhotoError::FileNotFound(d) => sentence("ファイルが見つかりません: ", d.as_str()),
            PhotoError::FileReadError(d) => sentence("ファイルの読み取りに失敗しました: ", d.as_str()),
            PhotoError::ExifReadError(d) => sentence("EXIF情報の読み取りに失敗しました: ", d.as_str()),
            PhotoError::NoGpsData => String::from_str("GPS情報が存在しません"),
            PhotoError::ImageProcessError(d) => sentence("画像処理に失敗しました: ", d.as_str()),
            PhotoError::ThumbnailGenerationError(d) => sentence(
                "サムネイル生成に失敗しました: ",
                d.as_str(),
            ),
            PhotoError::InternalError(d) => sentence("内部エラー: ", d.as_str()),
        }
    }
}

} // verus!
