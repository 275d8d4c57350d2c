//! The three ingestion handlers, as decision pipelines from plain inputs to
//! an [`Outcome`]: the reply to send and the file writes to perform. The
//! transport layer reads the body, deserializes the envelope and performs
//! the writes; everything the handlers decide is stated here.
//!
//! Conditions that abort the process in a naive implementation — a malformed
//! envelope, bytes the codec rejects, a field without a filename — are
//! classified as per-request errors instead: a bad request never takes the
//! service down.

use vstd::prelude::*;
use vstd::utf8::{valid_utf8, decode_utf8};
use crate::DERIVATIVE_SIDE;
use crate::codec::{base64_decoded, image_decodable, reencoded_pair, parsed_boundary, uri_parses,
    decode_base64, is_image, reencode, content_type_boundary, uri_ok, utf8_string};
use crate::envelope::Envelope;
use crate::multipart::{PartView, parse_multipart, parse_multipart_vec, filename_of,
    filename_in_headers, opening, header_end, field_sep, double_dash, single_part, clean_field,
    lemma_frame_single_multipart};
use crate::outcome::{Outcome, Reply, FileWrite, rejected, ingested_pair, reject, ingest_pair};
use crate::paths::{images_root, small_images_root, timestamped_upload, upload_path,
    lemma_roots_distinct};
use crate::bytes::sub_vec;

verus! {

/// What the base64 route replies and writes, given the envelope (absent when
/// the body was not valid JSON) and the request timestamp. Each error class
/// is rejected with no file written; when the bytes decode, the outcome is
/// fixed by the codec pipeline's named result: its two encodings are
/// persisted under 201, and only its refusal is a bare 500.
pub open spec fn base64_request_post(env: Option<Envelope>, ts: i64, r: Outcome) -> bool {
    match env {
        None => rejected(r, 400, "error parse json"@),
        Some(e) => match base64_decoded(e.image@) {
            None => rejected(r, 400, "error decode base64"@),
            Some(bytes) => if !image_decodable(bytes) {
                rejected(r, 400, "error decode image"@)
            } else {
                match reencoded_pair(bytes, DERIVATIVE_SIDE, DERIVATIVE_SIDE) {
                    Some(p) => ingested_pair(r, 201, "Success"@, ts) && r.writes@[0].data@ == p.0
                        && r.writes@[1].data@ == p.1,
                    None => rejected(r, 500, "error encode image"@),
                }
            },
        },
    }
}

/// The base64 ingestion handler: decode the `image` field from base64, then
/// to a bitmap, and persist the original plus the 100×100 derivative.
pub fn handle_base64(env: &Option<Envelope>, ts: i64) -> (r: Outcome)
    ensures
        base64_request_post(*env, ts, r),
{
    match env {
        None => reject(400, "error parse json"),
        Some(e) => match decode_base64(e.image.as_str()) {
            None => reject(400, "error decode base64"),
            Some(bytes) => {
                if !is_image(&bytes) {
                    reject(400, "error decode image")
                } else {
                    match reencode(&bytes, DERIVATIVE_SIDE, DERIVATIVE_SIDE) {
                        Some(pair) => {
                            let (original, derivative) = pair;
                            ingest_pair(201, "Success", ts, original, derivative)
                        },
                        None => reject(500, "error encode image"),
                    }
                }
            },
        },
    }
}

/// What the remote-fetch route decides before any network traffic: either an
/// immediate rejection, or the validated URL to GET.
pub enum FetchPlan {
    Refused(Outcome),
    Fetch(String),
}

/// The fetch is issued, with the envelope's own `url` value, exactly when
/// the envelope parsed and that value parses as a URI; otherwise the
/// request is rejected with no file written.
pub open spec fn fetch_plan_post(env: Option<Envelope>, r: FetchPlan) -> bool {
    match env {
        None => r matches FetchPlan::Refused(o) && rejected(o, 400, "error parse json"@),
        Some(e) => if uri_parses(e.url@) {
            r matches FetchPlan::Fetch(u) && u@ == e.url@
        } else {
            r matches FetchPlan::Refused(o) && rejected(o, 400, "err download file"@)
        },
    }
}

/// First half of the remote-fetch handler: validate the envelope and its URL.
pub fn prepare_fetch(env: &Option<Envelope>) -> (r: FetchPlan)
    ensures
        fetch_plan_post(*env, r),
{
    match env {
        None => FetchPlan::Refused(reject(400, "error parse json")),
        Some(e) => {
            if uri_ok(e.url.as_str()) {
                FetchPlan::Fetch(e.url.clone())
            } else {
                FetchPlan::Refused(reject(400, "err download file"))
            }
        },
    }
}

/// What the remote-fetch route replies and writes once the outbound GET has
/// come back (absent when the fetch itself failed): undecodable bytes are
/// rejected with no file written; when they decode, the codec pipeline's
/// named encodings are persisted under 200 — unlike the two upload routes —
/// and only its refusal is a bare 500.
pub open spec fn fetched_post(body: Option<Vec<u8>>, ts: i64, r: Outcome) -> bool {
    match body {
        None => rejected(r, 400, "err download file"@),
        Some(bytes) => if !image_decodable(bytes@) {
            rejected(r, 400, "err download file"@)
        } else {
            match reencoded_pair(bytes@, DERIVATIVE_SIDE, DERIVATIVE_SIDE) {
                Some(p) => ingested_pair(r, 200, "file is downloaded"@, ts) && r.writes@[0].data@
                    == p.0 && r.writes@[1].data@ == p.1,
                None => rejected(r, 500, "error encode image"@),
            }
        },
    }
}

/// Second half of the remote-fetch handler: decode what the GET returned and
/// persist the original plus the 100×100 derivative.
pub fn handle_fetched(body: &Option<Vec<u8>>, ts: i64) -> (r: Outcome)
    ensures
        fetched_post(*body, ts, r),
{
    match body {
        None => reject(400, "err download file"),
        Some(bytes) => {
            if !is_image(bytes) {
                reject(400, "err download file")
            } else {
                match reencode(bytes, DERIVATIVE_SIDE, DERIVATIVE_SIDE) {
                    Some(pair) => {
                        let (original, derivative) = pair;
                        ingest_pair(200, "file is downloaded", ts, original, derivative)
                    },
                    None => reject(500, "error encode image"),
                }
            }
        },
    }
}

/// The filename bytes of a field, where it has any.
pub open spec fn part_filename(p: PartView) -> Seq<u8> {
    match filename_of(p.headers) {
        Some(f) => f,
        None => Seq::empty(),
    }
}

/// The first field, in stream order, that the request is rejected for: a
/// field without a `filename="..."` parameter, or whose filename is not
/// UTF-8, rejects the request as malformed; a field whose content the codec
/// does not recognise rejects it as an image error. `None` when every field
/// is acceptable.
pub open spec fn part_rejection(parts: Seq<PartView>) -> Option<Seq<char>>
    decreases parts.len(),
{
    if parts.len() == 0 {
        None
    } else {
        match filename_of(parts[0].headers) {
            None => Some("BAD REQUEST"@),
            Some(f) => if !valid_utf8(f) {
                Some("BAD REQUEST"@)
            } else if !image_decodable(parts[0].content) {
                Some("error decode image"@)
            } else {
                part_rejection(parts.drop_first())
            },
        }
    }
}

/// The codec pipeline refuses some field's content.
pub open spec fn some_reencode_fails(parts: Seq<PartView>) -> bool {
    exists|i: int|
        0 <= i < parts.len() && (#[trigger] reencoded_pair(
            parts[i].content,
            DERIVATIVE_SIDE,
            DERIVATIVE_SIDE,
        )) is None
}

/// The three writes of field `i`: the exact uploaded bytes under both roots
/// — the derivative path briefly holds a full-size copy — then the codec
/// pipeline's named derivative encoding of those bytes over the derivative
/// path.
pub open spec fn part_writes_at(ws: Seq<FileWrite>, ts: i64, parts: Seq<PartView>, i: int) -> bool {
    let f = decode_utf8(part_filename(parts[i]));
    &&& ws[3 * i].path@ == timestamped_upload(images_root(), ts, f)
    &&& ws[3 * i].data@ == parts[i].content
    &&& ws[3 * i + 1].path@ == timestamped_upload(small_images_root(), ts, f)
    &&& ws[3 * i + 1].data@ == parts[i].content
    &&& ws[3 * i + 2].path@ == timestamped_upload(small_images_root(), ts, f)
    &&& reencoded_pair(parts[i].content, DERIVATIVE_SIDE, DERIVATIVE_SIDE) matches Some(p)
        && ws[3 * i + 2].data@ == p.1
}

/// A wholly successful multipart request: 201, and one original/derivative
/// pair per field.
pub open spec fn multipart_ingested(r: Outcome, ts: i64, parts: Seq<PartView>) -> bool {
    &&& r.reply.status == 201
    &&& r.reply.body@ == "Success"@
    &&& r.writes@.len() == 3 * parts.len()
    &&& forall|i: int| 0 <= i < parts.len() ==> #[trigger] part_writes_at(r.writes@, ts, parts, i)
}

/// The boundary the content-type header carries, if it carries one.
pub open spec fn boundary_of_ct(ct: Option<Seq<char>>) -> Option<Seq<u8>> {
    match ct {
        None => None,
        Some(c) => parsed_boundary(c),
    }
}

/// The view of the optional content-type header value.
pub open spec fn ct_view(ct: Option<&str>) -> Option<Seq<char>> {
    match ct {
        None => None,
        Some(c) => Some(c@),
    }
}

/// What the multipart route replies and writes: a missing boundary or a body
/// that departs from the framing is a bare 400 `BAD REQUEST`; a bad field
/// rejects the whole request with no file written; otherwise every field is
/// persisted, and only the codec pipeline's refusal of some field is a bare
/// 500.
pub open spec fn multipart_request_post(
    ct: Option<Seq<char>>,
    body: Seq<u8>,
    ts: i64,
    r: Outcome,
) -> bool {
    match boundary_of_ct(ct) {
        None => rejected(r, 400, "BAD REQUEST"@),
        Some(b) => match parse_multipart(body, b) {
            None => rejected(r, 400, "BAD REQUEST"@),
            Some(parts) => match part_rejection(parts) {
                Some(msg) => rejected(r, 400, msg),
                None => if some_reencode_fails(parts) {
                    rejected(r, 500, "error encode image"@)
                } else {
                    multipart_ingested(r, ts, parts)
                },
            },
        },
    }
}

/// A multipart request carrying one clean file field with content `c`
/// persists, when the codec pipeline yields, exactly three writes: `c`
/// itself, byte for byte, under both roots, then the pipeline's derivative
/// encoding over the derivative path, under 201. Only the pipeline's
/// refusal is a bare 500 with nothing written.
#[verifier::rlimit(100)]
pub proof fn lemma_single_file_upload(
    ct: Seq<char>,
    b: Seq<u8>,
    h: Seq<u8>,
    c: Seq<u8>,
    ts: i64,
    r: Outcome,
)
    requires
        parsed_boundary(ct) == Some(b),
        clean_field(b, h, c),
        filename_of(h) is Some,
        valid_utf8(part_filename(single_part(h, c))),
        image_decodable(c),
        multipart_request_post(
            Some(ct),
            opening(b) + h + header_end() + c + field_sep(b) + double_dash(),
            ts,
            r,
        ),
    ensures
        reencoded_pair(c, DERIVATIVE_SIDE, DERIVATIVE_SIDE) is None ==> rejected(
            r,
            500,
            "error encode image"@,
        ),
        reencoded_pair(c, DERIVATIVE_SIDE, DERIVATIVE_SIDE) matches Some(p) ==> {
            let f = decode_utf8(part_filename(single_part(h, c)));
            &&& r.reply.status == 201
            &&& r.reply.body@ == "Success"@
            &&& r.writes@.len() == 3
            &&& r.writes@[0].path@ == timestamped_upload(images_root(), ts, f)
            &&& r.writes@[0].data@ == c
            &&& r.writes@[1].path@ == timestamped_upload(small_images_root(), ts, f)
            &&& r.writes@[1].data@ == c
            &&& r.writes@[2].path@ == timestamped_upload(small_images_root(), ts, f)
            &&& r.writes@[2].data@ == p.1
        },
{
    lemma_frame_single_multipart(b, h, c);
    let parts = seq![single_part(h, c)];
    assert(parts[0] == single_part(h, c));
    assert(parts.drop_first() =~= Seq::<PartView>::empty());
    assert(part_rejection(Seq::<PartView>::empty()) is None);
    assert(part_rejection(parts) is None);
    if reencoded_pair(c, DERIVATIVE_SIDE, DERIVATIVE_SIDE) is None {
        assert(some_reencode_fails(parts));
    } else {
        if some_reencode_fails(parts) {
            let i = choose|i: int|
                0 <= i < parts.len() && (#[trigger] reencoded_pair(
                    parts[i].content,
                    DERIVATIVE_SIDE,
                    DERIVATIVE_SIDE,
                )) is None;
            assert(parts[i].content == c);
            assert(false);
        }
        assert(multipart_ingested(r, ts, parts));
        assert(part_writes_at(r.writes@, ts, parts, 0));
    }
}

/// A successful ingestion of the timestamp-named routes persists exactly one
/// original and one derivative, and the two never share a path.
pub proof fn lemma_pair_paths_distinct(r: Outcome, status: u16, body: Seq<char>, ts: i64)
    requires
        ingested_pair(r, status, body, ts),
    ensures
        r.writes@.len() == 2,
        r.writes@[0].path@ != r.writes@[1].path@,
{
    lemma_roots_distinct();
}

/// A wholly successful multipart request persists, for each field, exactly
/// one original and one derivative, and the two never share a path.
pub proof fn lemma_multipart_paths_distinct(r: Outcome, ts: i64, parts: Seq<PartView>, i: int)
    requires
        multipart_ingested(r, ts, parts),
        0 <= i < parts.len(),
    ensures
        r.writes@[3 * i].path@ != r.writes@[3 * i + 1].path@,
        r.writes@[3 * i + 1].path@ == r.writes@[3 * i + 2].path@,
{
    lemma_roots_distinct();
    assert(part_writes_at(r.writes@, ts, parts, i));
}

/// A classification that rejects nothing rejects no single field: every
/// field carries a UTF-8 filename and decodable content.
proof fn lemma_clean_parts(parts: Seq<PartView>, k: int)
    requires
        part_rejection(parts) is None,
        0 <= k < parts.len(),
    ensures
        filename_of(parts[k].headers) is Some,
        valid_utf8(part_filename(parts[k])),
        image_decodable(parts[k].content),
    decreases k,
{
    if k == 0 {
    } else {
        lemma_clean_parts(parts.drop_first(), k - 1);
        assert(parts.drop_first()[k - 1] == parts[k]);
    }
}

/// The multipart ingestion handler: extract the boundary from the
/// content-type, parse the fields, and persist each field's bytes under both
/// roots before overwriting the derivative path with the exact 100×100
/// resized re-encoding (always PNG, whatever the upload's own format). A bad
/// field rejects the whole request before anything is written, so a request
/// never leaves a partial pair behind.
pub fn handle_multipart(ct: Option<&str>, body: &Vec<u8>, ts: i64) -> (r: Outcome)
    ensures
        multipart_request_post(ct_view(ct), body@, ts, r),
{
    let boundary = match ct {
        None => {
            return reject(400, "BAD REQUEST");
        },
        Some(c) => match content_type_boundary(c) {
            None => {
                return reject(400, "BAD REQUEST");
            },
            Some(b) => b,
        },
    };
    let parts = match parse_multipart_vec(body, &boundary) {
        None => {
            return reject(400, "BAD REQUEST");
        },
        Some(parts) => parts,
    };
    let ghost pv = parts.deep_view();
    proof {
        assert(pv.skip(0) =~= pv);
    }
    let mut idx: usize = 0;
    while idx < parts.len()
        invariant
            idx <= parts@.len(),
            boundary_of_ct(ct_view(ct)) == Some(boundary@),
            parse_multipart(body@, boundary@) == Some(pv),
            pv == parts.deep_view(),
            pv.len() == parts@.len(),
            part_rejection(pv) == part_rejection(pv.skip(idx as int)),
        decreases parts@.len() - idx,
    {
        let ghost rest = pv.skip(idx as int);
        proof {
            assert(rest[0] == pv[idx as int]);
        }
        let field = &parts[idx];
        proof {
            assert(field@ == pv[idx as int]);
        }
        let filename_bytes = match filename_in_headers(&field.headers) {
            None => {
                proof {
                    assert(part_rejection(rest) == Some("BAD REQUEST"@));
                }
                return reject(400, "BAD REQUEST");
            },
            Some(f) => f,
        };
        let ghost fb = filename_bytes@;
        match utf8_string(filename_bytes) {
            None => {
                proof {
                    assert(filename_of(rest[0].headers) == Some(fb));
                    assert(part_rejection(rest) == Some("BAD REQUEST"@));
                }
                return reject(400, "BAD REQUEST");
            },
            Some(_name) => {},
        };
        if !is_image(&field.content) {
            proof {
                assert(filename_of(rest[0].headers) == Some(fb));
                assert(part_rejection(rest) == Some("error decode image"@));
            }
            return reject(400, "error decode image");
        }
        proof {
            assert(rest.drop_first() =~= pv.skip(idx + 1));
        }
        idx += 1;
    }
    proof {
        assert(pv.skip(pv.len() as int) =~= Seq::<PartView>::empty());
        assert(part_rejection(pv) is None);
    }
    let mut writes: Vec<FileWrite> = Vec::new();
    idx = 0;
    while idx < parts.len()
        invariant
            idx <= parts@.len(),
            boundary_of_ct(ct_view(ct)) == Some(boundary@),
            parse_multipart(body@, boundary@) == Some(pv),
            pv == parts.deep_view(),
            pv.len() == parts@.len(),
            part_rejection(pv) is None,
            writes@.len() == 3 * idx,
            forall|k: int| 0 <= k < idx ==> #[trigger] part_writes_at(writes@, ts, pv, k),
        decreases parts@.len() - idx,
    {
        proof {
            lemma_clean_parts(pv, idx as int);
        }
        let field = &parts[idx];
        proof {
            assert(field@ == pv[idx as int]);
        }
        let filename_bytes = match filename_in_headers(&field.headers) {
            None => {
                proof {
                    assert(false);
                }
                return reject(400, "BAD REQUEST");
            },
            Some(f) => f,
        };
        let ghost fb = filename_bytes@;
        let filename = match utf8_string(filename_bytes) {
            None => {
                proof {
                    assert(false);
                }
                return reject(400, "BAD REQUEST");
            },
            Some(s) => s,
        };
        let pair = match reencode(&field.content, DERIVATIVE_SIDE, DERIVATIVE_SIDE) {
            None => {
                proof {
                    assert(reencoded_pair(
                        pv[idx as int].content,
                        DERIVATIVE_SIDE,
                        DERIVATIVE_SIDE,
                    ) is None);
                    assert(some_reencode_fails(pv));
                }
                return reject(500, "error encode image");
            },
            Some(p) => p,
        };
        let ghost pr = (pair.0@, pair.1@);
        let (_original_encoding, derivative) = pair;
        let original_copy = sub_vec(&field.content, 0, field.content.len());
        let derivative_copy = sub_vec(&field.content, 0, field.content.len());
        proof {
            assert(field.content@.subrange(0, field.content@.len() as int) =~= field.content@);
        }
        let ghost before = writes@;
        writes.push(
            FileWrite { path: upload_path("images/", ts, filename.as_str()), data: original_copy },
        );
        writes.push(
            FileWrite {
                path: upload_path("small_images/", ts, filename.as_str()),
                data: derivative_copy,
            },
        );
        writes.push(
            FileWrite {
                path: upload_path("small_images/", ts, filename.as_str()),
                data: derivative,
            },
        );
        proof {
            assert forall|k: int| 0 <= k < idx + 1 implies #[trigger] part_writes_at(
                writes@,
                ts,
                pv,
                k,
            ) by {
                if k < idx {
                    assert(part_writes_at(before, ts, pv, k));
                    assert(writes@[3 * k] == before[3 * k]);
                    assert(writes@[3 * k + 1] == before[3 * k + 1]);
                    assert(writes@[3 * k + 2] == before[3 * k + 2]);
                } else {
                    assert(part_filename(pv[k]) == fb);
                    assert(reencoded_pair(pv[k].content, DERIVATIVE_SIDE, DERIVATIVE_SIDE)
                        == Some(pr));
                }
            }
        }
        idx += 1;
    }
    proof {
        assert forall|i: int|
            0 <= i < pv.len() implies !((#[trigger] reencoded_pair(
            pv[i].content,
            DERIVATIVE_SIDE,
            DERIVATIVE_SIDE,
        )) is None) by {
            assert(part_writes_at(writes@, ts, pv, i));
        }
        assert(!some_reencode_fails(pv));
    }
    Outcome { reply: Reply { status: 201, body: String::from_str("Success") }, writes }
}

} // verus!
