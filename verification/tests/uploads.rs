//! The multipart upload pipeline, exercised through the library's handler.

use image_ingest::handlers::handle_multipart;

/// A small PNG, encoded in memory.
fn sample_png(w: u32, h: u32) -> Vec<u8> {
    let img = image::DynamicImage::ImageRgb8(image::RgbImage::from_fn(w, h, |x, y| {
        image::Rgb([(x % 256) as u8, (y % 256) as u8, 64u8])
    }));
    let mut buf = std::io::Cursor::new(Vec::new());
    img.write_to(&mut buf, image::ImageOutputFormat::Png).unwrap();
    buf.into_inner()
}

/// A multipart/form-data body with one file field per (filename, content).
fn multipart_body(boundary: &str, fields: &[(&str, &[u8])]) -> Vec<u8> {
    let mut body: Vec<u8> = Vec::new();
    body.extend_from_slice(format!("--{}\r\n", boundary).as_bytes());
    for (i, (name, content)) in fields.iter().enumerate() {
        if i > 0 {
            body.extend_from_slice(format!("\r\n--{}\r\n", boundary).as_bytes());
        }
        body.extend_from_slice(
            format!(
                "Content-Disposition: form-data; name=\"file{}\"; filename=\"{}\"\r\n\r\n",
                i, name
            )
            .as_bytes(),
        );
        body.extend_from_slice(content);
    }
    body.extend_from_slice(format!("\r\n--{}--", boundary).as_bytes());
    body
}

const CT: &str = "multipart/form-data; boundary=XBOUNDARYX";

#[test]
fn multipart_single_file() {
    let photo = sample_png(100, 100);
    let body = multipart_body("XBOUNDARYX", &[("photo.jpg", &photo)]);
    let out = handle_multipart(Some(CT), &body, 50);
    assert_eq!(out.reply.status, 201);
    assert_eq!(out.reply.body, "Success");
    assert_eq!(out.writes.len(), 3);
    // The original is captured byte for byte under both roots first.
    assert_eq!(out.writes[0].path, "images/50_photo.jpg");
    assert_eq!(out.writes[0].data, photo);
    assert_eq!(out.writes[1].path, "small_images/50_photo.jpg");
    assert_eq!(out.writes[1].data, photo);
    // Then the derivative path is overwritten with the resized re-encoding.
    assert_eq!(out.writes[2].path, "small_images/50_photo.jpg");
    let derivative = image::load_from_memory(&out.writes[2].data).unwrap().to_rgba8();
    assert_eq!(derivative.dimensions(), (100, 100));
}

#[test]
fn multipart_two_files() {
    let a = sample_png(40, 40);
    let b = sample_png(200, 120);
    let body = multipart_body("XBOUNDARYX", &[("a.png", &a), ("b.png", &b)]);
    let out = handle_multipart(Some(CT), &body, 9);
    assert_eq!(out.reply.status, 201);
    assert_eq!(out.writes.len(), 6);
    assert_eq!(out.writes[0].path, "images/9_a.png");
    assert_eq!(out.writes[0].data, a);
    assert_eq!(out.writes[3].path, "images/9_b.png");
    assert_eq!(out.writes[3].data, b);
    assert_eq!(out.writes[5].path, "small_images/9_b.png");
    // The non-square source still yields an exactly 100x100 derivative.
    let derivative = image::load_from_memory(&out.writes[5].data).unwrap().to_rgba8();
    assert_eq!(derivative.dimensions(), (100, 100));
}

#[test]
fn multipart_no_boundary() {
    let body = b"anything".to_vec();
    let out = handle_multipart(Some("text/plain"), &body, 50);
    assert_eq!(out.reply.status, 400);
    assert_eq!(out.reply.body, "BAD REQUEST");
    assert_eq!(out.writes.len(), 0);
}

#[test]
fn multipart_no_content_type() {
    let body = b"anything".to_vec();
    let out = handle_multipart(None, &body, 50);
    assert_eq!(out.reply.status, 400);
    assert_eq!(out.reply.body, "BAD REQUEST");
    assert_eq!(out.writes.len(), 0);
}

#[test]
fn multipart_malformed_body() {
    // A boundary in the header, but a body without the closing delimiter.
    let body = b"--XBOUNDARYX\r\nContent-Disposition: form-data; name=\"f\"; filename=\"x.png\"\r\n\r\nabc".to_vec();
    let out = handle_multipart(Some(CT), &body, 50);
    assert_eq!(out.reply.status, 400);
    assert_eq!(out.reply.body, "BAD REQUEST");
    assert_eq!(out.writes.len(), 0);
}

#[test]
fn multipart_field_without_filename() {
    let mut body: Vec<u8> = Vec::new();
    body.extend_from_slice(b"--XBOUNDARYX\r\n");
    body.extend_from_slice(b"Content-Disposition: form-data; name=\"note\"\r\n\r\n");
    body.extend_from_slice(b"just text");
    body.extend_from_slice(b"\r\n--XBOUNDARYX--");
    let out = handle_multipart(Some(CT), &body, 50);
    assert_eq!(out.reply.status, 400);
    assert_eq!(out.reply.body, "BAD REQUEST");
    assert_eq!(out.writes.len(), 0);
}

#[test]
fn multipart_undecodable_field_writes_nothing() {
    // One good field and one that is no image: the whole request is
    // rejected and no pair is written for either field.
    let good = sample_png(10, 10);
    let body = multipart_body(
        "XBOUNDARYX",
        &[("ok.png", &good), ("bad.bin", b"not an image")],
    );
    let out = handle_multipart(Some(CT), &body, 50);
    assert_eq!(out.reply.status, 400);
    assert_eq!(out.reply.body, "error decode image");
    assert_eq!(out.writes.len(), 0);
}

#[test]
fn multipart_unicode_filename() {
    // The filename bytes are decoded as UTF-8 into the path.
    let photo = sample_png(6, 6);
    let body = multipart_body("XBOUNDARYX", &[("ph\u{00f6}to.png", &photo)]);
    let out = handle_multipart(Some(CT), &body, 3);
    assert_eq!(out.reply.status, 201);
    assert_eq!(out.writes[0].path, "images/3_ph\u{00f6}to.png");
}

#[test]
fn multipart_empty_body_rejected() {
    let body: Vec<u8> = Vec::new();
    let out = handle_multipart(Some(CT), &body, 50);
    assert_eq!(out.reply.status, 400);
    assert_eq!(out.reply.body, "BAD REQUEST");
    assert_eq!(out.writes.len(), 0);
}

#[test]
fn multipart_preamble_is_ignored() {
    // Bytes before the first opening delimiter are preamble, as the
    // streaming parser of the original behaviour skipped them.
    let photo = sample_png(10, 10);
    let mut body: Vec<u8> = b"this is a preamble\r\n".to_vec();
    body.extend_from_slice(&multipart_body("XBOUNDARYX", &[("p.png", &photo)]));
    let out = handle_multipart(Some(CT), &body, 4);
    assert_eq!(out.reply.status, 201);
    assert_eq!(out.writes.len(), 3);
    assert_eq!(out.writes[0].path, "images/4_p.png");
    assert_eq!(out.writes[0].data, photo);
}

#[test]
fn multipart_filename_outside_disposition_ignored() {
    // A filename parameter on some other header supplies no filename: only
    // the Content-Disposition line is read, so the field is rejected.
    let photo = sample_png(6, 6);
    let mut body: Vec<u8> = Vec::new();
    body.extend_from_slice(b"--XBOUNDARYX\r\n");
    body.extend_from_slice(b"X-Note: filename=\"decoy.png\"\r\n");
    body.extend_from_slice(b"Content-Disposition: form-data; name=\"f\"\r\n\r\n");
    body.extend_from_slice(&photo);
    body.extend_from_slice(b"\r\n--XBOUNDARYX--");
    let out = handle_multipart(Some(CT), &body, 4);
    assert_eq!(out.reply.status, 400);
    assert_eq!(out.reply.body, "BAD REQUEST");
    assert_eq!(out.writes.len(), 0);
}
