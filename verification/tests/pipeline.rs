use hylacviet::guard::{status_code_for, error_message, validate_upload, UploadError, MAX_UPLOAD_BYTES};
use hylacviet::media_type::{classify_content_type, resolve_media_type, ResolvedMediaType};
use hylacviet::pipeline::{prepare_upload, process_upload, UploadField};

fn field(
    name: &str,
    filename: &str,
    content_type: Option<&str>,
    bytes: Vec<u8>,
) -> UploadField {
    UploadField {
        name: name.to_string(),
        filename: filename.to_string(),
        content_type: content_type.map(|s| s.to_string()),
        bytes,
    }
}

fn sample_jpeg(width: u32, height: u32) -> Vec<u8> {
    let img = image::DynamicImage::ImageRgb8(image::RgbImage::from_pixel(
        width,
        height,
        image::Rgb([120u8, 80u8, 40u8]),
    ));
    let mut buf = std::io::Cursor::new(Vec::new());
    img.write_to(&mut buf, image::ImageFormat::Jpeg).unwrap();
    buf.into_inner()
}

fn sample_png(width: u32, height: u32) -> Vec<u8> {
    let img = image::DynamicImage::ImageRgb8(image::RgbImage::from_pixel(
        width,
        height,
        image::Rgb([10u8, 200u8, 90u8]),
    ));
    let mut buf = std::io::Cursor::new(Vec::new());
    img.write_to(&mut buf, image::ImageFormat::Png).unwrap();
    buf.into_inner()
}

#[test]
fn svg_passthrough_is_lossless() {
    let bytes = b"<svg xmlns=\"http://www.w3.org/2000/svg\"/>".to_vec();
    let p = prepare_upload(field("file", "logo.svg", Some("image/svg+xml"), bytes.clone()))
        .unwrap();
    assert_eq!(p.bytes, bytes);
    assert_eq!(p.extension, "svg");
    assert!(p.filename.ends_with(".svg"));
    assert_eq!(p.url, format!("/uploads/{}", p.filename));
    assert!(p.width.is_none());
}

#[test]
fn gif_passthrough_is_lossless_case_insensitive() {
    let bytes = vec![0x47u8, 0x49, 0x46, 0x38, 0x39, 0x61, 1, 2, 3];
    let p = prepare_upload(field("file", "ANIM.GIF", None, bytes.clone())).unwrap();
    assert_eq!(p.bytes, bytes);
    assert_eq!(p.extension, "gif");
    assert!(p.filename.ends_with(".gif"));
    assert_eq!(p.url, format!("/uploads/{}", p.filename));
}

#[test]
fn jpeg_wider_than_cap_becomes_1200x600_webp() {
    let bytes = sample_jpeg(2000, 1000);
    let p = prepare_upload(field("file", "photo.jpg", Some("image/jpeg"), bytes)).unwrap();
    assert_eq!(p.extension, "webp");
    assert_eq!(p.input_width, Some(2000));
    assert_eq!(p.input_height, Some(1000));
    assert_eq!(p.width, Some(1200));
    assert_eq!(p.height, Some(600));
    assert_eq!(image::guess_format(&p.bytes).unwrap(), image::ImageFormat::WebP);
    let stored = image::load_from_memory(&p.bytes).unwrap();
    assert_eq!(
        (image::GenericImageView::width(&stored), image::GenericImageView::height(&stored)),
        (1200, 600)
    );
}

#[test]
fn png_below_cap_keeps_its_resolution() {
    let bytes = sample_png(400, 300);
    let p = prepare_upload(field("file", "icon.png", Some("image/png"), bytes)).unwrap();
    assert_eq!(p.extension, "webp");
    assert_eq!(p.width, Some(400));
    assert_eq!(p.height, Some(300));
    assert_eq!(image::guess_format(&p.bytes).unwrap(), image::ImageFormat::WebP);
    let stored = image::load_from_memory(&p.bytes).unwrap();
    assert_eq!(
        (image::GenericImageView::width(&stored), image::GenericImageView::height(&stored)),
        (400, 300)
    );
}

#[test]
fn octet_stream_payload_is_sniffed_at_decode_time() {
    // No declared type and a sentinel filename: the classifier falls back to
    // the generic binary placeholder, and only the decode step discovers the
    // payload is a PNG.
    let bytes = sample_png(20, 10);
    let f = field("file", "unknown", None, bytes);
    assert_eq!(
        classify_content_type(f.content_type.as_deref(), &f.filename),
        "application/octet-stream"
    );
    let p = prepare_upload(f).unwrap();
    assert_eq!(p.extension, "webp");
    assert_eq!(p.width, Some(20));
    assert_eq!(p.height, Some(10));
}

#[test]
fn no_file_part_fails_with_no_file_provided() {
    let r = process_upload(Vec::new());
    match r {
        Err(e) => {
            assert_eq!(e, UploadError::NoFileProvided);
            assert_eq!(status_code_for(&e), 400);
            assert_eq!(error_message(&e), "No file uploaded");
        }
        Ok(_) => panic!("expected an error"),
    }
}

#[test]
fn non_qualifying_parts_are_skipped() {
    let skipped = field("", "unknown", None, vec![1, 2, 3]);
    let taken = field("file", "pic.svg", Some("image/svg+xml"), vec![4, 5, 6]);
    let p = process_upload(vec![skipped, taken]).unwrap();
    assert_eq!(p.bytes, vec![4, 5, 6]);
    assert_eq!(p.extension, "svg");
}

#[test]
fn text_plain_fails_with_unsupported_type() {
    let r = prepare_upload(field("file", "notes.txt", Some("text/plain"), vec![1]));
    match r {
        Err(e) => {
            assert_eq!(e, UploadError::UnsupportedType("text/plain".to_string()));
            assert_eq!(status_code_for(&e), 400);
            assert_eq!(
                error_message(&e),
                "Only image files are allowed, got: text/plain"
            );
        }
        Ok(_) => panic!("expected an error"),
    }
}

#[test]
fn payload_size_boundaries() {
    assert_eq!(MAX_UPLOAD_BYTES, 50 * 1024 * 1024);

    // Exactly 50 MiB: accepted (a GIF payload is stored without decoding).
    let at_cap = vec![0u8; MAX_UPLOAD_BYTES];
    let p = prepare_upload(field("file", "big.gif", Some("image/gif"), at_cap)).unwrap();
    assert_eq!(p.bytes.len(), MAX_UPLOAD_BYTES);

    // One byte over: rejected.
    let over_cap = vec![0u8; MAX_UPLOAD_BYTES + 1];
    let r = prepare_upload(field("file", "big.gif", Some("image/gif"), over_cap));
    match r {
        Err(e) => {
            assert_eq!(e, UploadError::PayloadTooLarge);
            assert_eq!(status_code_for(&e), 400);
            assert_eq!(error_message(&e), "File too large (max 50MB)");
        }
        Ok(_) => panic!("expected an error"),
    }

    // Zero bytes: rejected.
    let r = prepare_upload(field("file", "empty.gif", Some("image/gif"), Vec::new()));
    match r {
        Err(e) => {
            assert_eq!(e, UploadError::EmptyPayload);
            assert_eq!(status_code_for(&e), 400);
            assert_eq!(error_message(&e), "Empty file");
        }
        Ok(_) => panic!("expected an error"),
    }
}

#[test]
fn type_policy_stands_on_its_own() {
    assert!(hylacviet::guard::type_allowed("image/png"));
    assert!(hylacviet::guard::type_allowed("image/svg+xml"));
    assert!(hylacviet::guard::type_allowed("application/octet-stream"));
    assert!(!hylacviet::guard::type_allowed("text/plain"));
    assert!(!hylacviet::guard::type_allowed("application/pdf"));
    assert!(!hylacviet::guard::type_allowed(""));
}

#[test]
fn validate_upload_boundaries() {
    assert!(validate_upload("image/png", 1).is_ok());
    assert!(validate_upload("image/png", MAX_UPLOAD_BYTES).is_ok());
    assert_eq!(
        validate_upload("image/png", MAX_UPLOAD_BYTES + 1),
        Err(UploadError::PayloadTooLarge)
    );
    assert_eq!(validate_upload("image/png", 0), Err(UploadError::EmptyPayload));
    assert!(validate_upload("application/octet-stream", 10).is_ok());
    assert_eq!(
        validate_upload("application/pdf", 10),
        Err(UploadError::UnsupportedType("application/pdf".to_string()))
    );
}

#[test]
fn repeated_identical_uploads_get_distinct_filenames() {
    let bytes = b"<svg/>".to_vec();
    let first =
        prepare_upload(field("file", "a.svg", Some("image/svg+xml"), bytes.clone())).unwrap();
    let second =
        prepare_upload(field("file", "a.svg", Some("image/svg+xml"), bytes.clone())).unwrap();
    assert_eq!(first.bytes, second.bytes);
    assert_ne!(first.filename, second.filename);
    assert_ne!(first.url, second.url);
    // <36-character token>.<extension>
    assert_eq!(first.filename.len(), 36 + 1 + 3);
}

#[test]
fn undecodable_payload_fails_with_decode_error() {
    let r = prepare_upload(field("file", "broken.png", Some("image/png"), vec![9u8; 64]));
    match r {
        Err(e) => {
            assert!(matches!(e, UploadError::DecodeError(_)));
            assert_eq!(status_code_for(&e), 500);
        }
        Ok(_) => panic!("expected an error"),
    }
}

#[test]
fn width_exactly_at_cap_is_not_resized() {
    let bytes = sample_png(1200, 700);
    let t = hylacviet::transcode::transcode_to_webp(&bytes).unwrap();
    assert_eq!((t.input_width, t.input_height), (1200, 700));
    assert_eq!((t.width, t.height), (1200, 700));
}

#[test]
fn width_just_over_cap_scales_with_rounded_height() {
    // 1201 -> 1200 wide; 1000 * 1200 / 1201 = 999.17, rounded to 999.
    let bytes = sample_png(1201, 1000);
    let t = hylacviet::transcode::transcode_to_webp(&bytes).unwrap();
    assert_eq!((t.width, t.height), (1200, 999));

    // 1500 -> 1200 wide; 1000 * 1200 / 1500 = 800 exactly.
    let bytes = sample_png(1500, 1000);
    let t = hylacviet::transcode::transcode_to_webp(&bytes).unwrap();
    assert_eq!((t.width, t.height), (1200, 800));
}

#[test]
fn extremely_wide_image_keeps_at_least_one_pixel_of_height() {
    // 1 * 1200 / 3000 rounds to zero; the height is clamped to one pixel.
    let bytes = sample_png(3000, 1);
    let t = hylacviet::transcode::transcode_to_webp(&bytes).unwrap();
    assert_eq!((t.width, t.height), (1200, 1));
}

#[test]
fn output_height_beyond_encoder_range_fails_with_encode_error() {
    // 10 wide, so no resize: the output height of 17000 exceeds the WEBP
    // encoder's 16384-pixel limit and the transcode must report it.
    let bytes = sample_png(10, 17000);
    let r = hylacviet::transcode::transcode_to_webp(&bytes);
    match r {
        Err(e) => {
            assert!(matches!(e, UploadError::EncodeError(_)));
            assert_eq!(status_code_for(&e), 500);
        }
        Ok(_) => panic!("expected an error"),
    }
}

#[test]
fn mismatched_declared_type_is_corrected_by_sniffing() {
    // Declared JPEG, but the bytes are a PNG: the declared type gates
    // acceptance, while the decode step sniffs and decodes the real format.
    let bytes = sample_png(30, 20);
    let p = prepare_upload(field("file", "photo.jpg", Some("image/jpeg"), bytes)).unwrap();
    assert_eq!(p.extension, "webp");
    assert_eq!(p.width, Some(30));
    assert_eq!(p.height, Some(20));
}

#[test]
fn every_error_maps_to_its_status_and_message() {
    let cases: Vec<(UploadError, u16, String)> = vec![
        (UploadError::NoFileProvided, 400, "No file uploaded".to_string()),
        (
            UploadError::UnsupportedType("text/html".to_string()),
            400,
            "Only image files are allowed, got: text/html".to_string(),
        ),
        (UploadError::EmptyPayload, 400, "Empty file".to_string()),
        (UploadError::PayloadTooLarge, 400, "File too large (max 50MB)".to_string()),
        (UploadError::DecodeError("bad header".to_string()), 500, "bad header".to_string()),
        (UploadError::EncodeError("no encoder".to_string()), 500, "no encoder".to_string()),
        (UploadError::StorageWriteError("disk full".to_string()), 500, "disk full".to_string()),
    ];
    for (e, status, message) in cases {
        assert_eq!(status_code_for(&e), status);
        assert_eq!(error_message(&e), message);
    }
}

#[test]
fn classifier_precedence_and_inference() {
    // Declared type wins, verbatim.
    assert_eq!(classify_content_type(Some("image/png"), "x.jpg"), "image/png");
    // Extension inference, case-insensitive.
    assert_eq!(classify_content_type(None, "photo.JPEG"), "image/jpeg");
    assert_eq!(classify_content_type(None, "photo.jpg"), "image/jpeg");
    assert_eq!(classify_content_type(None, "a.png"), "image/png");
    assert_eq!(classify_content_type(None, "a.gif"), "image/gif");
    assert_eq!(classify_content_type(None, "a.webp"), "image/webp");
    assert_eq!(classify_content_type(None, "a.svg"), "image/svg+xml");
    assert_eq!(classify_content_type(None, "a.bin"), "application/octet-stream");

    assert_eq!(resolve_media_type("image/svg+xml", "x"), ResolvedMediaType::Svg);
    // A declared raster type with an SVG filename still goes the SVG path.
    assert_eq!(resolve_media_type("image/png", "x.svg"), ResolvedMediaType::Svg);
    assert_eq!(resolve_media_type("image/gif", "x"), ResolvedMediaType::Gif);
    assert_eq!(resolve_media_type("image/jpeg", "x"), ResolvedMediaType::Jpeg);
    assert_eq!(resolve_media_type("image/png", "x"), ResolvedMediaType::Png);
    assert_eq!(resolve_media_type("image/webp", "x"), ResolvedMediaType::Webp);
    assert_eq!(
        resolve_media_type("application/octet-stream", "x"),
        ResolvedMediaType::Unknown
    );
}
