//! What one request produces: exactly one response, plus the file writes the
//! storage layer must perform, in order, before the response is sent.

use vstd::prelude::*;
use crate::paths::{images_root, small_images_root, timestamped_png, png_path};

verus! {

/// The HTTP response of one request: a status code and a plain-text body.
pub struct Reply {
    pub status: u16,
    pub body: String,
}

/// One byte-for-byte file write, last writer wins per path.
pub struct FileWrite {
    pub path: String,
    pub data: Vec<u8>,
}

/// The outcome of one request: the reply, and the writes that precede it.
pub struct Outcome {
    pub reply: Reply,
    pub writes: Vec<FileWrite>,
}

/// The outcome is a bare rejection: the given status and body, and no file is
/// written.
pub open spec fn rejected(r: Outcome, status: u16, body: Seq<char>) -> bool {
    &&& r.reply.status == status
    &&& r.reply.body@ == body
    &&& r.writes@.len() == 0
}

/// The outcome persists one original/derivative pair under the
/// timestamp-named PNG paths and replies with the given status and body.
/// The bytes of the two files come from the bitmap codec.
pub open spec fn ingested_pair(r: Outcome, status: u16, body: Seq<char>, ts: i64) -> bool {
    &&& r.reply.status == status
    &&& r.reply.body@ == body
    &&& r.writes@.len() == 2
    &&& r.writes@[0].path@ == timestamped_png(images_root(), ts)
    &&& r.writes@[1].path@ == timestamped_png(small_images_root(), ts)
}

/// Builds a rejection outcome.
pub fn reject(status: u16, body: &str) -> (r: Outcome)
    ensures
        rejected(r, status, body@),
{
    Outcome { reply: Reply { status, body: String::from_str(body) }, writes: Vec::new() }
}

/// Builds the success outcome of the timestamp-named routes: the original
/// encoding under `images/`, the derivative encoding under `small_images/`.
pub fn ingest_pair(status: u16, body: &str, ts: i64, original: Vec<u8>, derivative: Vec<u8>) -> (r:
    Outcome)
    ensures
        ingested_pair(r, status, body@, ts),
        r.writes@[0].data@ == original@,
        r.writes@[1].data@ == derivative@,
{
    let mut writes: Vec<FileWrite> = Vec::new();
    writes.push(FileWrite { path: png_path("images/", ts), data: original });
    writes.push(FileWrite { path: png_path("small_images/", ts), data: derivative });
    Outcome { reply: Reply { status, body: String::from_str(body) }, writes }
}

} // verus!
