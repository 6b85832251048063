//! Where a file is found.
use vstd::prelude::*;

verus! {

/// The location of a file: on this machine, or behind a URL.
#[derive(Debug)]
pub enum PathOrUrl {
    /// A local file.
    Path(std::path::PathBuf),
    /// A remote file.
    Url(url::Url),
}

/// Why a text is neither a path nor a URL, in words.
#[derive(Debug)]
pub struct PathOrUrlParseError {
    /// What the parser reported.
    pub message: String,
}

} // verus!
