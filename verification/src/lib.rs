//! Photographic metadata and bounded previews for image files.
//!
//! The crate turns the bytes of a photo into a typed metadata record
//! ([`metadata::read_exif`]) and into a small JPEG preview packaged as an
//! inline data URI ([`thumbnail::generate_thumbnail`]). Reading the file is
//! left to the caller, who reports what the read gave as a
//! [`source::SourceFile`]; everything after that is decided here.
//!
//! # Modules
//!
//! - [`tags`]: the fields of a container as plain values, and the store
//!   that holds them by tag.
//! - [`container`]: reading those fields out of a file's bytes.
//! - [`metadata`]: the record, field by field, and the laws of its fields.
//! - [`thumbnail`]: the preview.
//! - [`record`]: metadata and preview put together with the file's
//!   attributes.
//! - [`directory`] and [`filetime`]: the rules of a directory listing.
//! - [`text`]: trimming, and the normal form of a capture time.
//! - [`models`], [`error`], [`source`]: the values handed in and out.
//!
//! # What is proved and what is believed
//!
//! Every function is verified against its contract. Containers are parsed
//! by the `exif` crate, rasters are handled by the `image` crate, and
//! `base64` and `chrono` encode a payload and print a time. Each call into
//! them stands in a small function whose contract is believed; the doc
//! comment of each says what it claims.

pub mod container;
pub mod directory;
pub mod error;
pub mod filetime;
pub mod metadata;
pub mod models;
pub mod record;
pub mod source;
pub mod tags;
pub mod text;
pub mod thumbnail;

pub use error::{PhotoError, PhotoErrorView};
pub use metadata::read_exif;
pub use models::{
    CameraInfo, Coordinate, DirectoryContent, DirectoryEntry, ExifData, Fraction, Gps, PhotoData,
    Rational,
};
pub use source::SourceFile;
pub use thumbnail::generate_thumbnail;
