use coverart::pipeline::decode_failure_message;
use coverart::pipeline::process_decoded;
use coverart::pipeline::save_failure_message;
use coverart::pipeline::transform;
use coverart::pipeline::DecodedImage;
use image::DynamicImage;

#[test]
fn large_image_is_resized_to_300_by_300() {
    let img = DynamicImage::new_rgb8(500, 400);
    let d = DecodedImage::from_dynamic(img);
    assert_eq!(d.width, 500);
    assert_eq!(d.height, 400);
    let out = transform(d);
    assert_eq!(out.width, 300);
    assert_eq!(out.height, 300);
    assert_eq!(out.img.as_bytes().len(), 300 * 300 * 3);
}

#[test]
fn small_image_passes_through_bit_for_bit() {
    let mut buf = image::RgbImage::new(150, 100);
    for (x, y, p) in buf.enumerate_pixels_mut() {
        *p = image::Rgb([(x % 256) as u8, (y % 256) as u8, ((x + y) % 256) as u8]);
    }
    let img = DynamicImage::ImageRgb8(buf);
    let bytes_before = img.as_bytes().to_vec();
    let out = transform(DecodedImage::from_dynamic(img));
    assert_eq!(out.width, 150);
    assert_eq!(out.height, 100);
    assert_eq!(out.img.as_bytes(), &bytes_before[..]);
}

#[test]
fn middle_image_is_resized_to_200_by_200() {
    let img = DynamicImage::new_rgb8(250, 120);
    let out = transform(DecodedImage::from_dynamic(img));
    assert_eq!(out.width, 200);
    assert_eq!(out.height, 200);
    assert_eq!(out.img.as_bytes().len(), 200 * 200 * 3);
}

#[test]
fn process_decoded_resizes_and_derives_the_output_path() {
    let img = DynamicImage::new_rgb8(500, 400);
    let (out, path) = process_decoded(DecodedImage::from_dynamic(img), "/tmp/in.png");
    assert_eq!(out.width, 300);
    assert_eq!(out.height, 300);
    assert_eq!(path, "/tmp/in_processed.png");
}

#[test]
fn corrupt_data_surfaces_a_decode_error() {
    let corrupt = [0u8, 1, 2, 3, 4, 5, 6, 7, 8, 9];
    let decoded = image::load_from_memory(&corrupt);
    assert!(decoded.is_err());
    let reason = decoded.err().unwrap().to_string();
    let message = decode_failure_message(&reason);
    assert!(message.starts_with("Image cannot be opened: "));

    let mut p = coverart::state::Processor::new();
    p.begin_job();
    p.update(coverart::state::Event::ImageProcessed(Err(message.clone())));
    assert_eq!(p.message, format!("Error: {}", message));
    assert!(p.processed_image.is_none());
}

#[test]
fn failure_messages_carry_the_reason() {
    assert_eq!(decode_failure_message("bad header"), "Image cannot be opened: bad header");
    assert_eq!(save_failure_message("disk full"), "No se pudo guardar la imagen: disk full");
}
