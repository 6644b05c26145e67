//! What reading a photo from disk gave.

use vstd::prelude::*;

verus! {

/// The outcome of looking for a file and reading it whole.
///
/// The library never touches the file system. Its caller does, and reports
/// here what came of it, so that the answer to every outcome is decided, and
/// stated, in one place.
#[derive(Debug, Clone)]
pub enum SourceFile {
    /// No file exists at the path.
    Missing,
    /// The file exists but could not be opened or read; the cause in words.
    Unreadable(String),
    /// The file's bytes.
    Loaded(Vec<u8>),
}

} // verus!
