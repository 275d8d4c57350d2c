//! File placement scheme.
//!
//! Every successfully ingested image yields exactly two files: the original
//! under the `images/` root and the 100×100 derivative under the
//! `small_images/` root. The base64 and remote-fetch routes name both files
//! `<timestamp>.png`; the multipart route names them
//! `<timestamp>_<uploaded filename>`.

use vstd::prelude::*;
use crate::decimal::{dec_int, dec_string_i64};

verus! {

/// Root directory of the unmodified originals.
pub open spec fn images_root() -> Seq<char> {
    "images/"@
}

/// Root directory of the resized derivatives.
pub open spec fn small_images_root() -> Seq<char> {
    "small_images/"@
}

/// Path of a PNG named by the timestamp alone: `<root><timestamp>.png`.
pub open spec fn timestamped_png(root: Seq<char>, ts: i64) -> Seq<char> {
    root + dec_int(ts as int) + ".png"@
}

/// Path of an uploaded file: `<root><timestamp>_<filename>`.
pub open spec fn timestamped_upload(root: Seq<char>, ts: i64, filename: Seq<char>) -> Seq<char> {
    root + dec_int(ts as int) + "_"@ + filename
}

/// Builds `<root><timestamp>.png`.
pub fn png_path(root: &str, ts: i64) -> (r: String)
    ensures
        r@ == timestamped_png(root@, ts),
{
    let digits = dec_string_i64(ts);
    let r = String::from_str(root).concat(digits.as_str()).concat(".png");
    proof {
        assert(r@ =~= root@ + dec_int(ts as int) + ".png"@);
    }
    r
}

/// Builds `<root><timestamp>_<filename>`.
pub fn upload_path(root: &str, ts: i64, filename: &str) -> (r: String)
    ensures
        r@ == timestamped_upload(root@, ts, filename@),
{
    let digits = dec_string_i64(ts);
    let r = String::from_str(root).concat(digits.as_str()).concat("_").concat(filename);
    proof {
        assert(r@ =~= root@ + dec_int(ts as int) + "_"@ + filename@);
    }
    r
}

/// The two roots differ, so an original and a derivative of one ingestion
/// never share a path, whatever the timestamp and filename.
pub proof fn lemma_roots_distinct()
    ensures
        forall|ts: i64| timestamped_png(images_root(), ts) != timestamped_png(
            small_images_root(),
            ts,
        ),
        forall|ts: i64, f: Seq<char>| timestamped_upload(images_root(), ts, f)
            != timestamped_upload(small_images_root(), ts, f),
{
    reveal_strlit("images/");
    reveal_strlit("small_images/");
    assert forall|ts: i64| timestamped_png(images_root(), ts) != timestamped_png(
        small_images_root(),
        ts,
    ) by {
        assert(timestamped_png(images_root(), ts)[0] == 'i');
        assert(timestamped_png(small_images_root(), ts)[0] == 's');
    }
    assert forall|ts: i64, f: Seq<char>| timestamped_upload(images_root(), ts, f)
        != timestamped_upload(small_images_root(), ts, f) by {
        assert(timestamped_upload(images_root(), ts, f)[0] == 'i');
        assert(timestamped_upload(small_images_root(), ts, f)[0] == 's');
    }
}

} // verus!
