//! The full record of one photo: the file's attributes, its metadata and
//! its preview.

use vstd::prelude::*;
use vstd::string::*;
use crate::error::{PhotoError, PhotoErrorView};
use crate::metadata::{read_exif, read_outcome};
use crate::models::{exif_view, ExifData, ExifDataView, PhotoData};
use crate::source::SourceFile;
use crate::thumbnail::{
    generate_thumbnail, is_jpeg_data_uri, is_thumbnail_outcome, is_thumbnail_uri, THUMBNAIL_SIZE,
};

verus! {

/// What is kept of an outcome: its value, and nothing of a failure.
pub open spec fn kept<T>(outcome: Result<T, PhotoErrorView>) -> Option<T> {
    match outcome {
        Ok(value) => Some(value),
        Err(_) => None,
    }
}

/// What is kept of deriving a preview: the data URI, and nothing of a
/// failure.
pub open spec fn kept_preview(made: Result<String, PhotoError>) -> Option<String> {
    match made {
        Ok(uri) => Some(uri),
        Err(_) => None,
    }
}

/// What is kept of reading the metadata: the record, and nothing of a
/// failure.
pub open spec fn kept_exif(read: Result<ExifData, PhotoError>) -> Option<ExifData> {
    match read {
        Ok(data) => Some(data),
        Err(_) => None,
    }
}

/// Puts a record together from the file's attributes and from what reading
/// the metadata and deriving the preview came to.
///
/// The record keeps the metadata that was read and the preview that was
/// derived. A failure of either leaves its place empty and touches nothing
/// else.
pub fn assemble_photo(
    path: String,
    filename: String,
    file_size: u64,
    modified_time: String,
    read: Result<ExifData, PhotoError>,
    made: Result<String, PhotoError>,
) -> (photo: PhotoData)
    ensures
        photo.path == path,
        photo.filename == filename,
        photo.file_size == file_size,
        photo.modified_time == modified_time,
        photo.exif == kept_exif(read),
        photo.thumbnail == kept_preview(made),
{
    let exif = match read {
        Ok(data) => Some(data),
        Err(_) => None,
    };
    let thumbnail = match made {
        Ok(uri) => Some(uri),
        Err(_) => None,
    };
    PhotoData { path, filename, file_size, modified_time, exif, thumbnail }
}

/// Puts together the record of the photo at `path`: the attributes that
/// the file system gave, the metadata and the preview.
///
/// Metadata and preview are made each on its own, and the record is what
/// [`assemble_photo`] makes of the two outcomes.
pub fn get_photo_data(
    path: String,
    filename: String,
    file_size: u64,
    modified_time: String,
    file: &SourceFile,
) -> (photo: PhotoData)
    ensures
        photo.path@ == path@,
        photo.filename@ == filename@,
        photo.file_size == file_size,
        photo.modified_time@ == modified_time@,
        exif_view(photo.exif) == kept(read_outcome(path@, *file)),
        exists|made: Result<String, PhotoError>|
            {
                &&& #[trigger] is_thumbnail_outcome(made, path@, *file, THUMBNAIL_SIZE)
                &&& photo.thumbnail == kept_preview(made)
            },
        photo.thumbnail matches Some(uri) ==> (file matches SourceFile::Loaded(bytes)
            && is_thumbnail_uri(uri@, bytes@, THUMBNAIL_SIZE) && is_jpeg_data_uri(uri@)),
{
    let read = read_exif(path.as_str(), file);
    let made = generate_thumbnail(path.as_str(), file, THUMBNAIL_SIZE);
    assemble_photo(path, filename, file_size, modified_time, read, made)
}

} // verus!
