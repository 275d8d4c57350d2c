//! Verified core of an HTTP image-ingestion service.
//!
//! The library holds the request-dispatch and ingestion pipeline: routing,
//! error classification, file naming, the multipart framing, and the
//! graceful-shutdown lifecycle. The HTTP transport, the filesystem and the
//! listening loop live outside the library and hand it plain values.

pub mod bytes;
pub mod codec;
pub mod decimal;
pub mod envelope;
pub mod handlers;
pub mod lifecycle;
pub mod multipart;
pub mod outcome;
pub mod paths;
pub mod router;

use vstd::prelude::*;

verus! {

/// Side length, in pixels, of the bounding box of every derivative image.
pub const DERIVATIVE_SIDE: u32 = 100;

/// The second-granularity timestamp captured once at handler entry, which
/// namespaces every file the request persists.
pub fn request_timestamp() -> i64 {
    crate::codec::unix_now()
}

} // verus!
