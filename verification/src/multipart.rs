//! The multipart/form-data framing the upload route reads.
//!
//! The body is a sequence of fields between boundary delimiters: the first
//! occurrence of `--<boundary>\r\n` opens the first field (anything before
//! it is preamble and is ignored), `\r\n--<boundary>\r\n` separates fields,
//! and `\r\n--<boundary>--` closes the stream (what follows the closing
//! delimiter is ignored). Each field consists of its header block, ended by
//! the first empty line, and its content, which runs to the next delimiter —
//! so a delimiter can never occur inside content. The uploaded filename is
//! the value of the first `filename="..."` parameter on the first
//! `Content-Disposition:` header line.

use vstd::prelude::*;
use crate::bytes::{match_at, find_from, lemma_find_from, lemma_find_first, find_sub, sub_vec,
    push_bytes, bytes_eq_at};

verus! {

/// One field of a multipart body: its header block and its exact content
/// bytes.
pub struct PartView {
    pub headers: Seq<u8>,
    pub content: Seq<u8>,
}

/// One field of a multipart body, as parsed.
pub struct UploadPart {
    pub headers: Vec<u8>,
    pub content: Vec<u8>,
}

impl View for UploadPart {
    type V = PartView;

    open spec fn view(&self) -> PartView {
        PartView { headers: self.headers@, content: self.content@ }
    }
}

impl DeepView for UploadPart {
    type V = PartView;

    open spec fn deep_view(&self) -> PartView {
        self@
    }
}

/// The two-byte line break of the framing.
pub open spec fn crlf() -> Seq<u8> {
    seq![13u8, 10u8]
}

/// The two dashes that introduce every boundary delimiter.
pub open spec fn double_dash() -> Seq<u8> {
    seq![45u8, 45u8]
}

/// The empty line that ends a field's header block.
pub open spec fn header_end() -> Seq<u8> {
    crlf() + crlf()
}

/// The delimiter that ends a field's content: `\r\n--<boundary>`.
pub open spec fn field_sep(b: Seq<u8>) -> Seq<u8> {
    crlf() + double_dash() + b
}

/// The delimiter that opens the first field: `--<boundary>\r\n`.
pub open spec fn opening(b: Seq<u8>) -> Seq<u8> {
    double_dash() + b + crlf()
}

/// The bytes of `filename="`.
pub open spec fn filename_key() -> Seq<u8> {
    seq![102u8, 105u8, 108u8, 101u8, 110u8, 97u8, 109u8, 101u8, 61u8, 34u8]
}

/// The closing double quote of the filename parameter.
pub open spec fn quote_byte() -> Seq<u8> {
    seq![34u8]
}

/// The bytes of `Content-Disposition:`.
pub open spec fn disposition_key() -> Seq<u8> {
    seq![67u8, 111u8, 110u8, 116u8, 101u8, 110u8, 116u8, 45u8, 68u8, 105u8, 115u8, 112u8, 111u8,
        115u8, 105u8, 116u8, 105u8, 111u8, 110u8, 58u8]
}

/// Parses the fields of `d`, which starts at a field's header block, up to
/// the closing delimiter. `None` on any departure from the framing.
pub open spec fn parse_fields(d: Seq<u8>, b: Seq<u8>) -> Option<Seq<PartView>>
    decreases d.len(),
{
    let sep = field_sep(b);
    match find_from(d, sep, 0) {
        None => None,
        Some(i) => match find_from(d.subrange(0, i as int), header_end(), 0) {
            None => None,
            Some(h) => {
                let part = PartView {
                    headers: d.subrange(0, h as int),
                    content: d.subrange(h as int + 4, i as int),
                };
                let after = (i + sep.len()) as int;
                if after + 2 <= d.len() && d.subrange(after, after + 2) == double_dash() {
                    Some(seq![part])
                } else if after + 2 <= d.len() && d.subrange(after, after + 2) == crlf() {
                    match parse_fields(d.subrange(after + 2, d.len() as int), b) {
                        None => None,
                        Some(rest) => Some(seq![part] + rest),
                    }
                } else {
                    None
                }
            },
        },
    }
}

/// Parses a whole multipart body against the boundary: anything before the
/// first opening delimiter is preamble and is ignored. `None` on any
/// departure from the framing.
pub open spec fn parse_multipart(d: Seq<u8>, b: Seq<u8>) -> Option<Seq<PartView>> {
    match find_from(d, opening(b), 0) {
        None => None,
        Some(p) => parse_fields(d.subrange((p + opening(b).len()) as int, d.len() as int), b),
    }
}

/// The uploaded filename carried by a header block: on the first
/// `Content-Disposition:` header line, the bytes between the first
/// `filename="` and the next double quote, both within that line.
pub open spec fn filename_of(h: Seq<u8>) -> Option<Seq<u8>> {
    match find_from(h, disposition_key(), 0) {
        None => None,
        Some(d) => {
            let line_end = match find_from(h, crlf(), d) {
                Some(e) => e as int,
                None => h.len() as int,
            };
            match find_from(h, filename_key(), d) {
                None => None,
                Some(i) => if i + filename_key().len() > line_end {
                    None
                } else {
                    let start = i + filename_key().len();
                    match find_from(h, quote_byte(), start) {
                        None => None,
                        Some(j) => if j >= line_end {
                            None
                        } else {
                            Some(h.subrange(start as int, j as int))
                        },
                    }
                },
            }
        },
    }
}

/// The field with the given header block and content.
pub open spec fn single_part(h: Seq<u8>, c: Seq<u8>) -> PartView {
    PartView { headers: h, content: c }
}

/// A field block is clean when neither delimiter strays into it: the field
/// separator occurs nowhere inside the block, and the empty line that ends
/// the header block is the first one.
pub open spec fn clean_field(b: Seq<u8>, h: Seq<u8>, c: Seq<u8>) -> bool {
    let block = h + header_end() + c + field_sep(b) + double_dash();
    &&& forall|j: int| 0 <= j < h.len() + 4 + c.len() ==> !match_at(block, field_sep(b), j)
    &&& forall|j: int| 0 <= j < h.len() ==> !match_at(h + header_end() + c, header_end(), j)
}

/// A single clean field, framed as the grammar prescribes, parses back to
/// exactly that field.
#[verifier::rlimit(60)]
pub proof fn lemma_frame_single_field(b: Seq<u8>, h: Seq<u8>, c: Seq<u8>)
    requires
        clean_field(b, h, c),
    ensures
        parse_fields(h + header_end() + c + field_sep(b) + double_dash(), b) == Some(
            seq![single_part(h, c)],
        ),
{
    let d = h + header_end() + c + field_sep(b) + double_dash();
    let sep = field_sep(b);
    let k = h.len() + 4 + c.len();
    assert(header_end().len() == 4);
    assert(sep.len() == 4 + b.len());
    assert(match_at(d, sep, k as int)) by {
        assert(d.subrange(k as int, k as int + sep.len()) =~= sep);
    }
    lemma_find_first(d, sep, 0, k);
    let part = d.subrange(0, k as int);
    assert(part =~= h + header_end() + c);
    assert(match_at(part, header_end(), h.len() as int)) by {
        assert(part.subrange(h.len() as int, h.len() + 4 as int) =~= header_end());
    }
    lemma_find_first(part, header_end(), 0, h.len());
    assert(d.subrange(0, h.len() as int) =~= h);
    assert(d.subrange(h.len() as int + 4, k as int) =~= c);
    let after = k + sep.len();
    assert(after + 2 == d.len());
    assert(d.subrange(after as int, after as int + 2) =~= double_dash());
    assert(parse_fields(d, b) == Some(seq![single_part(h, c)]));
}

/// A whole multipart body framed around one clean field parses back to
/// exactly that field.
#[verifier::rlimit(60)]
pub proof fn lemma_frame_single_multipart(b: Seq<u8>, h: Seq<u8>, c: Seq<u8>)
    requires
        clean_field(b, h, c),
    ensures
        parse_multipart(
            opening(b) + h + header_end() + c + field_sep(b) + double_dash(),
            b,
        ) == Some(seq![single_part(h, c)]),
{
    let tail = h + header_end() + c + field_sep(b) + double_dash();
    let d = opening(b) + tail;
    assert(opening(b) + h + header_end() + c + field_sep(b) + double_dash() =~= d);
    assert(opening(b).len() >= 1);
    assert(match_at(d, opening(b), 0)) by {
        assert(d.subrange(0, opening(b).len() as int) =~= opening(b));
    }
    lemma_find_first(d, opening(b), 0, 0);
    assert(d.subrange(opening(b).len() as int, d.len() as int) =~= tail);
    lemma_frame_single_field(b, h, c);
}

fn make_field_sep(b: &Vec<u8>) -> (r: Vec<u8>)
    ensures
        r@ == field_sep(b@),
{
    let mut r: Vec<u8> = Vec::new();
    r.push(13);
    r.push(10);
    r.push(45);
    r.push(45);
    push_bytes(&mut r, b);
    proof {
        assert(r@ =~= field_sep(b@));
    }
    r
}

fn make_opening(b: &Vec<u8>) -> (r: Vec<u8>)
    ensures
        r@ == opening(b@),
{
    let mut r: Vec<u8> = Vec::new();
    r.push(45);
    r.push(45);
    push_bytes(&mut r, b);
    r.push(13);
    r.push(10);
    proof {
        assert(r@ =~= opening(b@));
    }
    r
}

fn make_header_end() -> (r: Vec<u8>)
    ensures
        r@ == header_end(),
{
    let mut r: Vec<u8> = Vec::new();
    r.push(13);
    r.push(10);
    r.push(13);
    r.push(10);
    proof {
        assert(r@ =~= header_end());
    }
    r
}

fn make_double_dash() -> (r: Vec<u8>)
    ensures
        r@ == double_dash(),
{
    let mut r: Vec<u8> = Vec::new();
    r.push(45);
    r.push(45);
    proof {
        assert(r@ =~= double_dash());
    }
    r
}

fn make_crlf() -> (r: Vec<u8>)
    ensures
        r@ == crlf(),
{
    let mut r: Vec<u8> = Vec::new();
    r.push(13);
    r.push(10);
    proof {
        assert(r@ =~= crlf());
    }
    r
}

fn make_filename_key() -> (r: Vec<u8>)
    ensures
        r@ == filename_key(),
{
    let mut r: Vec<u8> = Vec::new();
    r.push(102);
    r.push(105);
    r.push(108);
    r.push(101);
    r.push(110);
    r.push(97);
    r.push(109);
    r.push(101);
    r.push(61);
    r.push(34);
    proof {
        assert(r@ =~= filename_key());
    }
    r
}

fn make_quote() -> (r: Vec<u8>)
    ensures
        r@ == quote_byte(),
{
    let mut r: Vec<u8> = Vec::new();
    r.push(34);
    proof {
        assert(r@ =~= quote_byte());
    }
    r
}

fn make_disposition_key() -> (r: Vec<u8>)
    ensures
        r@ == disposition_key(),
{
    let mut r: Vec<u8> = Vec::new();
    r.push(67);
    r.push(111);
    r.push(110);
    r.push(116);
    r.push(101);
    r.push(110);
    r.push(116);
    r.push(45);
    r.push(68);
    r.push(105);
    r.push(115);
    r.push(112);
    r.push(111);
    r.push(115);
    r.push(105);
    r.push(116);
    r.push(105);
    r.push(111);
    r.push(110);
    r.push(58);
    proof {
        assert(r@ =~= disposition_key());
    }
    r
}

/// Parses the fields of `d` as [`parse_fields`] reads them.
pub fn parse_fields_vec(d: &Vec<u8>, b: &Vec<u8>) -> (r: Option<Vec<UploadPart>>)
    ensures
        match r {
            Some(parts) => parse_fields(d@, b@) == Some(parts.deep_view()),
            None => parse_fields(d@, b@) is None,
        },
    decreases d@.len(),
{
    let sep = make_field_sep(b);
    proof {
        assert(sep@.len() == 4 + b@.len());
    }
    match find_sub(d, &sep, 0) {
        None => None,
        Some(i) => {
            proof {
                lemma_find_from(d@, sep@, 0);
            }
            let head_part = sub_vec(d, 0, i);
            let he = make_header_end();
            match find_sub(&head_part, &he, 0) {
                None => None,
                Some(h) => {
                    proof {
                        lemma_find_from(head_part@, he@, 0);
                    }
                    let headers = sub_vec(d, 0, h);
                    let content = sub_vec(d, h + 4, i);
                    let n = d.len();
                    let after = i + sep.len();
                    let part = UploadPart { headers, content };
                    let ghost pv = part@;
                    if d.len() >= 2 && after <= d.len() - 2 && bytes_eq_at(
                        d,
                        &make_double_dash(),
                        after,
                    ) {
                        let mut out: Vec<UploadPart> = Vec::new();
                        out.push(part);
                        proof {
                            assert(out.deep_view() =~= seq![pv]);
                        }
                        Some(out)
                    } else if d.len() >= 2 && after <= d.len() - 2 && bytes_eq_at(
                        d,
                        &make_crlf(),
                        after,
                    ) {
                        let rest = sub_vec(d, after + 2, d.len());
                        match parse_fields_vec(&rest, b) {
                            None => None,
                            Some(mut tail) => {
                                let ghost tailv = tail.deep_view();
                                let mut out: Vec<UploadPart> = Vec::new();
                                out.push(part);
                                out.append(&mut tail);
                                proof {
                                    assert(out.deep_view() =~= seq![pv] + tailv);
                                }
                                Some(out)
                            },
                        }
                    } else {
                        None
                    }
                },
            }
        },
    }
}

/// Parses a whole multipart body as [`parse_multipart`] reads it.
pub fn parse_multipart_vec(d: &Vec<u8>, b: &Vec<u8>) -> (r: Option<Vec<UploadPart>>)
    ensures
        match r {
            Some(parts) => parse_multipart(d@, b@) == Some(parts.deep_view()),
            None => parse_multipart(d@, b@) is None,
        },
{
    let open = make_opening(b);
    proof {
        assert(open@.len() == 4 + b@.len());
    }
    match find_sub(d, &open, 0) {
        None => None,
        Some(p) => {
            proof {
                lemma_find_from(d@, open@, 0);
            }
            let n = d.len();
            let rest = sub_vec(d, p + open.len(), d.len());
            parse_fields_vec(&rest, b)
        },
    }
}

/// Extracts the uploaded filename as [`filename_of`] reads it.
pub fn filename_in_headers(h: &Vec<u8>) -> (r: Option<Vec<u8>>)
    ensures
        match r {
            Some(f) => filename_of(h@) == Some(f@),
            None => filename_of(h@) is None,
        },
{
    let dkey = make_disposition_key();
    match find_sub(h, &dkey, 0) {
        None => None,
        Some(d) => {
            let cr = make_crlf();
            let line_end = match find_sub(h, &cr, d) {
                Some(e) => e,
                None => h.len(),
            };
            let key = make_filename_key();
            match find_sub(h, &key, d) {
                None => None,
                Some(i) => {
                    proof {
                        lemma_find_from(h@, key@, d as nat);
                    }
                    let n = h.len();
                    let start = i + key.len();
                    if start > line_end {
                        None
                    } else {
                        let q = make_quote();
                        match find_sub(h, &q, start) {
                            None => None,
                            Some(j) => {
                                proof {
                                    lemma_find_from(h@, q@, start as nat);
                                }
                                if j >= line_end {
                                    None
                                } else {
                                    Some(sub_vec(h, start, j))
                                }
                            },
                        }
                    }
                },
            }
        },
    }
}

} // verus!
