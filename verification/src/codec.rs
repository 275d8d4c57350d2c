//! The outside capabilities the pipeline leans on: the base64 codec, the
//! bitmap codec, the multipart boundary parser, the URI parser, UTF-8
//! decoding and the clock. Each is reached through one trusted wrapper whose
//! contract states what the callee's source and documentation promise; the
//! rest of the library is verified against these contracts.

use vstd::prelude::*;
use vstd::utf8::{valid_utf8, decode_utf8};

verus! {

/// What base64 decoding of a string yields, when it yields anything: the
/// result depends on the input characters alone.
pub uninterp spec fn base64_decoded(s: Seq<char>) -> Option<Seq<u8>>;

/// Whether the bitmap codec recognises the bytes as an image: success
/// depends on the bytes alone.
pub uninterp spec fn image_decodable(b: Seq<u8>) -> bool;

/// What the codec pipeline — decode the bytes, re-encode the bitmap as PNG,
/// and re-encode its exact `w`×`h` nearest-neighbor resize as PNG — yields
/// when every step succeeds: the original and derivative encodings, each a
/// function of the input bytes and the dimensions alone.
pub uninterp spec fn reencoded_pair(b: Seq<u8>, w: u32, h: u32) -> Option<(Seq<u8>, Seq<u8>)>;

/// The multipart boundary carried by a content-type value, if any: the
/// result depends on the input characters alone.
pub uninterp spec fn parsed_boundary(s: Seq<char>) -> Option<Seq<u8>>;

/// Whether the string parses as a request URI: success depends on the input
/// characters alone.
pub uninterp spec fn uri_parses(s: Seq<char>) -> bool;

/// Relies on base64::decode (the standard alphabet; a final padding may also
/// be omitted): decoding is a function of the input string alone.
#[verifier::external_body]
pub(crate) fn decode_base64(s: &str) -> (r: Option<Vec<u8>>)
    ensures
        match r {
            Some(v) => base64_decoded(s@) == Some(v@),
            None => base64_decoded(s@) is None,
        },
{
    base64::decode(s).ok()
}

/// Relies on image::load_from_memory: the format is guessed from the bytes
/// and decoding succeeds or fails on the bytes alone.
#[verifier::external_body]
pub(crate) fn is_image(b: &Vec<u8>) -> (r: bool)
    ensures
        r == image_decodable(b@),
{
    image::load_from_memory(b.as_slice()).is_ok()
}

/// Relies on image::load_from_memory, DynamicImage::resize_exact with the
/// nearest-neighbor filter, and DynamicImage::write_to with the PNG format:
/// the whole pipeline is deterministic, a function of the bytes and the
/// dimensions alone. `None` when the bytes decode as no image or an encoder
/// refuses, which encoding an in-memory bitmap as PNG does not in practice.
#[verifier::external_body]
pub(crate) fn reencode(b: &Vec<u8>, w: u32, h: u32) -> (r: Option<(Vec<u8>, Vec<u8>)>)
    ensures
        match r {
            Some(p) => reencoded_pair(b@, w, h) == Some((p.0@, p.1@)),
            None => reencoded_pair(b@, w, h) is None,
        },
{
    let img = match image::load_from_memory(b.as_slice()) {
        Ok(i) => i,
        Err(_) => return None,
    };
    let small = img.resize_exact(w, h, image::imageops::FilterType::Nearest);
    let mut original = std::io::Cursor::new(Vec::new());
    if img.write_to(&mut original, image::ImageOutputFormat::Png).is_err() {
        return None;
    }
    let mut derivative = std::io::Cursor::new(Vec::new());
    if small.write_to(&mut derivative, image::ImageOutputFormat::Png).is_err() {
        return None;
    }
    Some((original.into_inner(), derivative.into_inner()))
}

/// Relies on multer::parse_boundary: accepts exactly the content-type values
/// whose essence is multipart/form-data and that carry a boundary parameter,
/// and returns that boundary; the result depends on the input characters
/// alone.
#[verifier::external_body]
pub(crate) fn content_type_boundary(ct: &str) -> (r: Option<Vec<u8>>)
    ensures
        match r {
            Some(b) => parsed_boundary(ct@) == Some(b@),
            None => parsed_boundary(ct@) is None,
        },
{
    match multer::parse_boundary(ct) {
        Ok(s) => Some(s.into_bytes()),
        Err(_) => None,
    }
}

/// Relies on str::parse for hyper::Uri: parsing succeeds or fails on the
/// input characters alone.
#[verifier::external_body]
pub(crate) fn uri_ok(s: &str) -> (r: bool)
    ensures
        r == uri_parses(s@),
{
    s.parse::<hyper::Uri>().is_ok()
}

/// Relies on String::from_utf8: succeeds exactly on valid UTF-8, and the
/// returned characters decode the input bytes.
#[verifier::external_body]
pub(crate) fn utf8_string(v: Vec<u8>) -> (r: Option<String>)
    ensures
        match r {
            Some(s) => valid_utf8(v@) && s@ == decode_utf8(v@),
            None => !valid_utf8(v@),
        },
{
    match String::from_utf8(v) {
        Ok(s) => Some(s),
        Err(_) => None,
    }
}

/// Relies on chrono::Utc::now and chrono::DateTime::timestamp: seconds since
/// the Unix epoch at the moment of the call. Nothing can be promised of the
/// clock's value; the call panics on a system clock set before the epoch,
/// an exposure kept from the original behaviour.
#[verifier::external_body]
pub(crate) fn unix_now() -> (r: i64)
{
    chrono::Utc::now().timestamp()
}

} // verus!
