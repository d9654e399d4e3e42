use image_intensity::decode::decode;
use image_intensity::handler::{
    handle_upload, process_image, status_code, ImageError, RequestOutcome, UploadBody,
};

fn png_bytes(width: u32, height: u32, channels: &[(u8, u8, u8)]) -> Vec<u8> {
    let mut img = image::RgbImage::new(width, height);
    let mut i: usize = 0;
    for y in 0..height {
        for x in 0..width {
            let (r, g, b) = channels[i];
            img.put_pixel(x, y, image::Rgb([r, g, b]));
            i += 1;
        }
    }
    let mut buf: Vec<u8> = Vec::new();
    img.write_to(&mut std::io::Cursor::new(&mut buf), image::ImageFormat::Png)
        .unwrap();
    buf
}

#[test]
fn decode_reads_pixels_back_exactly() {
    let channels = [(1, 2, 3), (4, 5, 6), (7, 8, 9), (250, 251, 252)];
    let bytes = png_bytes(2, 2, &channels);
    let grid = decode(&bytes).unwrap();
    assert_eq!(grid.width, 2);
    assert_eq!(grid.height, 2);
    assert_eq!(grid.pixels.len(), 4);
    for (p, &(r, g, b)) in grid.pixels.iter().zip(channels.iter()) {
        assert_eq!((p.r, p.g, p.b), (r, g, b));
    }
}

#[test]
fn decode_rejects_text_bytes() {
    let bytes: Vec<u8> = b"this is plainly not an image".to_vec();
    assert!(decode(&bytes).is_err());
}

#[test]
fn process_rejects_text_bytes() {
    let bytes: Vec<u8> = b"still not an image".to_vec();
    assert_eq!(process_image(&bytes), Err(ImageError::Decode));
}

#[test]
fn process_rejects_empty_bytes() {
    let bytes: Vec<u8> = Vec::new();
    assert_eq!(process_image(&bytes), Err(ImageError::Decode));
}

#[test]
fn process_computes_uniform_png() {
    let channels: Vec<(u8, u8, u8)> = vec![(90, 90, 90); 15];
    let bytes = png_bytes(5, 3, &channels);
    let t = process_image(&bytes).unwrap();
    assert_eq!(t.count, 15);
    assert_eq!(t.total, 90 * 15);
    let average: f64 = t.total as f64 / t.count as f64;
    assert_eq!(average, 90.0);
}

#[test]
fn process_is_deterministic_over_one_buffer() {
    let channels = [(12, 200, 7), (0, 0, 1), (255, 254, 253), (90, 91, 92)];
    let bytes = png_bytes(4, 1, &channels);
    let first = process_image(&bytes).unwrap();
    let second = process_image(&bytes).unwrap();
    assert_eq!(first, second);
    let a1: f64 = first.total as f64 / first.count as f64;
    let a2: f64 = second.total as f64 / second.count as f64;
    assert_eq!(a1, a2);
}

#[test]
fn missing_image_field_is_a_client_error() {
    let outcome = handle_upload(UploadBody::NoImageField);
    assert!(matches!(outcome, RequestOutcome::BadRequest));
    assert_eq!(status_code(&outcome), 400);
}

#[test]
fn malformed_body_is_a_client_error() {
    let outcome = handle_upload(UploadBody::Malformed);
    assert!(matches!(outcome, RequestOutcome::BadRequest));
    assert_eq!(status_code(&outcome), 400);
}

#[test]
fn present_but_empty_field_is_unprocessable_not_client_error() {
    let outcome = handle_upload(UploadBody::ImageBytes(Vec::new()));
    assert!(matches!(outcome, RequestOutcome::Unprocessable));
    assert_eq!(status_code(&outcome), 422);
}

#[test]
fn valid_upload_is_computed_with_status_ok() {
    let bytes = png_bytes(2, 1, &[(0, 0, 0), (255, 255, 255)]);
    let outcome = handle_upload(UploadBody::ImageBytes(bytes));
    match outcome {
        RequestOutcome::Computed(t) => {
            assert_eq!(t.total, 255);
            assert_eq!(t.count, 2);
            assert_eq!(t.total as f64 / t.count as f64, 127.5);
        }
        _ => panic!("expected a computed outcome"),
    }
    assert_eq!(status_code(&outcome), 200);
}
