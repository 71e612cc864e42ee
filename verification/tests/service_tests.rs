use image::codecs::jpeg::JpegEncoder;
use image::{DynamicImage, GenericImage, GenericImageView, ImageFormat};
use ocl_image_resizer::service::{
    decode_upload, encode_jpeg, reply_for_encoding, reply_for_resized, Reply, ResizeParams,
    BODY_LIMIT, JPEG_QUALITY,
};

fn png_bytes(w: u32, h: u32) -> Vec<u8> {
    let mut buf = Vec::new();
    DynamicImage::new_rgb8(w, h)
        .write_to(&mut std::io::Cursor::new(&mut buf), ImageFormat::Png)
        .unwrap();
    buf
}

#[test]
fn params_decode_uri_and_read_sizes() {
    let p = ResizeParams::from_path("http%3A%2F%2Fexample.com%2Fa%20b.jpg", "300", "+200").unwrap();
    assert_eq!(p.uri, "http://example.com/a b.jpg");
    assert_eq!((p.width, p.height), (300, 200));
}

#[test]
fn params_replace_invalid_utf8() {
    let p = ResizeParams::from_path("x%FFy", "1", "1").unwrap();
    assert_eq!(p.uri, "x\u{fffd}y");
}

#[test]
fn params_refuse_bad_sizes() {
    assert!(ResizeParams::from_path("u", "x", "2").is_none());
    assert!(ResizeParams::from_path("u", "2", "").is_none());
    assert!(ResizeParams::from_path("u", "4294967296", "2").is_none());
}

#[test]
fn undecodable_upload_is_bad_request() {
    match decode_upload(b"not an image") {
        Err(reply) => {
            assert_eq!(reply.status(), 400);
            assert!(matches!(reply, Reply::BadRequest { .. }));
        }
        Ok(_) => panic!("decoded garbage"),
    }
}

#[test]
fn truncated_pam_header_is_refused_not_a_panic() {
    let expected = format!(
        "{}",
        image::load_from_memory_with_format(b"P7\n", ImageFormat::Pnm).err().unwrap()
    );
    match decode_upload(b"P7\n") {
        Err(Reply::BadRequest { message }) => assert_eq!(message, expected),
        _ => panic!("expected a 400"),
    }
}

#[test]
fn undecodable_message_is_the_decoders() {
    let expected = format!("{}", image::guess_format(b"not an image").err().unwrap());
    match decode_upload(b"not an image") {
        Err(Reply::BadRequest { message }) => assert_eq!(message, expected),
        _ => panic!("expected a 400"),
    }
}

#[test]
fn png_upload_decodes() {
    let img = decode_upload(&png_bytes(3, 2)).ok().unwrap();
    assert_eq!(img.dimensions(), (3, 2));
}

#[test]
fn encode_jpeg_gives_jpeg_bytes() {
    let bytes = encode_jpeg(&DynamicImage::new_rgba8(4, 4)).unwrap();
    assert_eq!(&bytes[..2], &[0xff, 0xd8]);
    let back = image::load_from_memory(&bytes).unwrap();
    assert_eq!(back.dimensions(), (4, 4));
}

#[test]
fn reply_for_encoding_keeps_content_type() {
    match reply_for_encoding("image/png".to_string(), Ok(vec![1, 2, 3])) {
        Reply::Image { content_type, body } => {
            assert_eq!(content_type, "image/png");
            assert_eq!(body, vec![1, 2, 3]);
        }
        _ => panic!("expected the image"),
    }
    let r = reply_for_encoding("image/png".to_string(), Err("broken".to_string()));
    assert_eq!(r.status(), 500);
    assert!(matches!(r, Reply::InternalServerError { message } if message == "broken"));
}

#[test]
fn reply_for_resized_failure_is_server_error() {
    let r = reply_for_resized("image/jpeg".to_string(), Err("Mailbox has closed".to_string()));
    assert_eq!(r.status(), 500);
    assert!(matches!(r, Reply::InternalServerError { message } if message == "Mailbox has closed"));
}

#[test]
fn reply_for_resized_success_is_jpeg() {
    let r = reply_for_resized("image/jpeg".to_string(), Ok(DynamicImage::new_rgba8(2, 2)));
    assert_eq!(r.status(), 200);
    match r {
        Reply::Image { content_type, body } => {
            assert_eq!(content_type, "image/jpeg");
            assert_eq!(body, encode_jpeg(&DynamicImage::new_rgba8(2, 2)).unwrap());
        }
        _ => panic!("expected the image"),
    }
}

#[test]
fn service_constants() {
    assert_eq!(BODY_LIMIT, 104_857_600);
    assert_eq!(JPEG_QUALITY, 100);
}

#[test]
fn encode_jpeg_matches_the_crates_own_jpeg_writer() {
    let mut img = DynamicImage::new_rgba8(9, 7);
    img.put_pixel(3, 4, image::Rgba([200, 10, 30, 255]));
    img.put_pixel(8, 6, image::Rgba([5, 250, 90, 255]));
    img.put_pixel(0, 0, image::Rgba([1, 2, 3, 0]));
    let mut expected = Vec::new();
    img.write_with_encoder(JpegEncoder::new_with_quality(&mut expected, 100)).unwrap();
    assert_eq!(encode_jpeg(&img).unwrap(), expected);
}

#[test]
fn reply_for_resized_encoder_failure_is_server_error() {
    let r = reply_for_resized("image/jpeg".to_string(), Ok(DynamicImage::new_rgba8(0, 3)));
    assert_eq!(r.status(), 500);
    let expected = encode_jpeg(&DynamicImage::new_rgba8(0, 3)).err().unwrap();
    assert!(matches!(r, Reply::InternalServerError { message } if message == expected));
}

#[test]
fn truncated_headers_of_every_format_are_refused() {
    let prefixes: [&[u8]; 17] = [
        b"\x89PNG\r\n\x1a\n", &[0xff, 0xd8, 0xff], b"GIF89a", b"GIF87a", b"RIFF\0\0\0\0WEBP",
        b"MM\0*", b"II*\0", b"BM", &[0, 0, 1, 0], b"#?RADIANCE", b"P1", b"P2", b"P3", b"P4",
        b"P5", b"P6", b"P7\n",
    ];
    let tails: [&[u8]; 5] = [b"", b"\n", b"\n# c\n", b"\nWIDTH 1\n", &[0xff; 16]];
    for p in prefixes.iter() {
        for t in tails.iter() {
            let mut body = p.to_vec();
            body.extend_from_slice(t);
            let r = decode_upload(&body);
            if let Err(reply) = r {
                assert_eq!(reply.status(), 400);
            }
        }
    }
}

#[test]
fn encode_jpeg_uses_only_the_pixel_grid_of_a_long_buffer() {
    let long = image::RgbaImage::from_raw(1, 1, vec![10, 20, 30, 255, 1, 2, 3, 4]).unwrap();
    let exact = image::RgbaImage::from_raw(1, 1, vec![10, 20, 30, 255]).unwrap();
    let a = encode_jpeg(&DynamicImage::ImageRgba8(long)).unwrap();
    let b = encode_jpeg(&DynamicImage::ImageRgba8(exact)).unwrap();
    assert_eq!(a, b);
}
