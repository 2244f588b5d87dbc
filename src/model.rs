use vstd::prelude::*;

use crate::metadata::MetadataMap;

verus! {

/// A reply of the image API: a success flag, the payload when there is one,
/// and the service's messages and errors.
pub struct Response<T> {
    pub success: bool,
    pub result: Option<T>,
    pub result_info: Option<String>,
    pub messages: Option<Vec<String>>,
    pub errors: Vec<ApiError>,
}

/// A point in time, as seconds and nanoseconds after the Unix epoch.
#[derive(Debug, Clone, Copy, PartialEq, Eq, Structural)]
pub struct UploadTime {
    pub secs: u64,
    pub nanos: u32,
}

/// The record of an uploaded image.
pub struct Image {
    pub id: String,
    pub filename: String,
    pub require_signed_urls: bool,
    pub uploaded: UploadTime,
    /// Absolute URLs, one for each rendition of the image.
    pub variants: Vec<String>,
    pub meta: Option<MetadataMap>,
}

/// An error entry that the service reports.
pub struct ApiError {
    pub code: u16,
    pub message: String,
}

} // verus!
