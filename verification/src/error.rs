//! What an operation hands back to the script: the identifier of what it
//! made, and the error that the native library reported while making it.

use crate::resource::ResourceId;
use vstd::prelude::*;

verus! {

/// An error reported by the native library.
#[derive(Debug, PartialEq, Eq)]
pub enum WebGpuError {
    Lost,
    OutOfMemory,
    Validation(String),
}

/// The outcome of an operation that creates a resource. An error does not
/// take the identifier away: the native library hands out a handle even for
/// a pipeline that it found invalid.
#[derive(Debug, PartialEq, Eq)]
pub struct WebGpuResult {
    pub rid: Option<ResourceId>,
    pub err: Option<WebGpuError>,
}

impl WebGpuResult {
    /// The outcome that carries the identifier `rid` and the error `err`, if
    /// there was one.
    pub fn rid_err(rid: ResourceId, err: Option<WebGpuError>) -> (result: WebGpuResult)
        ensures
            result.rid == Some(rid),
            result.err == err,
    {
        WebGpuResult { rid: Some(rid), err }
    }
}

} // verus!
