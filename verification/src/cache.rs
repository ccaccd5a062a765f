//! The cache-aside protocol, as decisions. The caller reads and writes the
//! files and talks to the network; what to look up, what to fetch and what to
//! store is decided here.

use vstd::prelude::*;
use crate::error::ApiError;

verus! {

/// A file to write: the raw response, byte for byte, under the path derived
/// from what was asked for. The directory is to be created first if it is not
/// there.
#[derive(Debug, Clone, PartialEq, Eq)]
pub struct CacheWrite {
    pub directory: String,
    pub filepath: String,
    pub contents: String,
}

/// A `CacheWrite` as a mathematical value.
pub struct CacheWriteView {
    pub directory: Seq<char>,
    pub filepath: Seq<char>,
    pub contents: Seq<char>,
}

impl View for CacheWrite {
    type V = CacheWriteView;

    open spec fn view(&self) -> CacheWriteView {
        CacheWriteView {
            directory: self.directory@,
            filepath: self.filepath@,
            contents: self.contents@,
        }
    }
}

/// What a fetch led to: the record or the failure, and the file that the
/// caller is to write, if any.
#[derive(Debug)]
pub struct Fetched<T> {
    pub result: Result<T, ApiError>,
    pub write: Option<CacheWrite>,
}

/// A request that the caller is to send, and the file under which the response
/// will be cached.
#[derive(Debug, Clone, PartialEq, Eq)]
pub struct FetchRequest {
    pub url: String,
    pub filepath: String,
}

/// A `FetchRequest` as a mathematical value.
pub struct FetchRequestView {
    pub url: Seq<char>,
    pub filepath: Seq<char>,
}

impl View for FetchRequest {
    type V = FetchRequestView;

    open spec fn view(&self) -> FetchRequestView {
        FetchRequestView { url: self.url@, filepath: self.filepath@ }
    }
}

/// What a look into the cache led to.
#[derive(Debug)]
pub enum Cached<T> {
    /// The file was there: what its contents say.
    Hit(Result<T, ApiError>),
    /// No file was there: the request to send.
    Miss(FetchRequest),
}

/// The view of an optional cache write.
pub open spec fn write_view(write: Option<CacheWrite>) -> Option<CacheWriteView> {
    match write {
        Some(file) => Some(file@),
        None => None,
    }
}

} // verus!
