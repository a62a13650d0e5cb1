use image_convert::resize_and_webp;
use image_convert::str_to_hash;
use image_convert::ConvertError;
use image_convert::ImageConvert;
use image_convert::ImageFile;

fn make_rgb_jpeg(path: &str, width: u32, height: u32) {
    let buf = image::RgbImage::from_pixel(width, height, image::Rgb([120u8, 80u8, 40u8]));
    buf.save(path).unwrap();
}

#[test]
fn end_to_end_large_variant() {
    let input = "/tmp/ic_e2e_example.jpg";
    make_rgb_jpeg(input, 2400, 1600);

    let (file, artifact) = resize_and_webp(input, 1200, "large").unwrap();
    let h = str_to_hash("/tmp");

    assert_eq!(file.width, 1200);
    assert_eq!(file.height, 800);
    assert_eq!(file.ext, "jpg");
    assert_eq!(file.hash, format!("large_ic_e2e_example_{}", h));
    assert_eq!(file.url, format!("/tmp/large_ic_e2e_example_{}.jpg", h));
    assert_eq!(file.name, "ic_e2e_example.jpg");
    assert_eq!(file.mine, "");
    assert!(file.size > 0);

    // The byte size is the primary file's length as observed on storage.
    let on_disk = ImageFile::new(&file.url).unwrap();
    assert_eq!(on_disk.size, file.size);
    assert_eq!(on_disk.width, 1200);
    assert_eq!(on_disk.height, 800);

    let art = artifact.unwrap();
    assert_eq!(art.path, format!("/tmp/large_ic_e2e_example_{}.webp", h));
    assert!(!art.bytes.is_empty());

    // The artifact's bytes are a real webp encoding of the resized image.
    let webp_image = webp::Decoder::new(&art.bytes).decode().unwrap();
    assert_eq!((webp_image.width(), webp_image.height()), (1200, 800));

    // Chaining the derivative through the pipeline again with another
    // label produces a second, independent pair of outputs.
    let (second, second_art) = resize_and_webp(&file.url, 750, "medium").unwrap();
    assert_eq!(second.width, 750);
    assert_eq!(second.height, 500);
    assert_eq!(
        second.hash,
        format!("medium_large_ic_e2e_example_{}_{}", h, h)
    );
    assert_ne!(second.hash, file.hash);
    assert_ne!(second.url, file.url);
    assert_eq!(second_art.unwrap().path, format!("/tmp/{}.webp", second.hash));
}

#[test]
fn converting_twice_is_idempotent() {
    let input = "/tmp/ic_idem_example.jpg";
    make_rgb_jpeg(input, 900, 300);

    let (a, art_a) = resize_and_webp(input, 450, "half").unwrap();
    let (b, art_b) = resize_and_webp(input, 450, "half").unwrap();

    assert_eq!(a.hash, b.hash);
    assert_eq!(a.url, b.url);
    assert_eq!(a.name, b.name);
    assert_eq!(a.ext, b.ext);
    assert_eq!((a.width, a.height), (450, 150));
    assert_eq!((b.width, b.height), (450, 150));
    assert_eq!(a.size, b.size);
    assert_eq!(art_a.unwrap().path, art_b.unwrap().path);
}

#[test]
fn same_directory_same_hash_component() {
    let one = "/tmp/ic_hash_one.jpg";
    let two = "/tmp/ic_hash_two.jpg";
    make_rgb_jpeg(one, 40, 30);
    make_rgb_jpeg(two, 64, 64);

    let (f1, _) = resize_and_webp(one, 20, "v").unwrap();
    let (f2, _) = resize_and_webp(two, 20, "v").unwrap();
    let h = str_to_hash("/tmp");
    assert!(f1.hash.ends_with(&h));
    assert!(f2.hash.ends_with(&h));
}

#[test]
fn no_upscale_through_pipeline() {
    let input = "/tmp/ic_small_example.jpg";
    make_rgb_jpeg(input, 320, 200);

    let (file, _) = resize_and_webp(input, 1200, "large").unwrap();
    assert_eq!((file.width, file.height), (320, 200));
}

#[test]
fn webp_refusal_is_not_fatal() {
    // An eight-bit grayscale PNG decodes to a pixel layout the webp
    // encoder refuses; the pipeline still returns a full descriptor,
    // only without the secondary artifact.
    let input = "/tmp/ic_gray_example.png";
    let buf = image::GrayImage::from_pixel(64, 40, image::Luma([200u8]));
    buf.save(input).unwrap();

    let (file, artifact) = resize_and_webp(input, 32, "thumb").unwrap();
    assert!(artifact.is_none());
    assert_eq!((file.width, file.height), (32, 20));
    assert_eq!(file.ext, "png");
    assert!(file.size > 0);
}

#[test]
fn encode_webp_reports_unsupported_layout() {
    let input = "/tmp/ic_gray_encode.png";
    let buf = image::GrayImage::from_pixel(16, 16, image::Luma([10u8]));
    buf.save(input).unwrap();

    let conv = ImageConvert::new(input).unwrap();
    assert!(matches!(conv.encode_webp(), Err(ConvertError::Encode(_))));
}

#[test]
fn missing_file_is_a_decode_error() {
    assert!(matches!(
        resize_and_webp("/tmp/ic_absent_file.jpg", 100, "x"),
        Err(ConvertError::Decode(_))
    ));
}

#[test]
fn malformed_path_is_an_input_error() {
    assert!(matches!(
        resize_and_webp("/tmp/no_extension", 100, "x"),
        Err(ConvertError::Input(_))
    ));
}

#[test]
fn write_png_drops_alpha_and_keeps_dimensions() {
    let input = "/tmp/ic_rgba_example.png";
    let buf = image::RgbaImage::from_pixel(30, 12, image::Rgba([10u8, 20u8, 30u8, 128u8]));
    buf.save(input).unwrap();

    let out = "/tmp/ic_png_out.png";
    ImageConvert::new(input).unwrap().write_png(out).unwrap();

    let written = ImageFile::new(out).unwrap();
    assert_eq!((written.width, written.height), (30, 12));
}

#[test]
fn from_image_records_dimensions() {
    let img = image::DynamicImage::ImageRgb8(image::RgbImage::new(10, 5));
    let conv = ImageConvert::from_image(img);
    assert_eq!(conv.width(), 10);
    assert_eq!(conv.height(), 5);
}

#[test]
fn image_file_new_describes_source_in_place() {
    let input = "/tmp/ic_describe_example.jpg";
    make_rgb_jpeg(input, 50, 60);

    let f = ImageFile::new(input).unwrap();
    let h = str_to_hash("/tmp");
    assert_eq!(f.url, input);
    assert_eq!(f.hash, format!("ic_describe_example_{}", h));
    assert_eq!(f.name, "ic_describe_example.jpg");
    assert_eq!((f.width, f.height), (50, 60));
    assert!(f.size > 0);
}

#[test]
fn resize_step_returns_capped_buffer() {
    let input = "/tmp/ic_resize_step.jpg";
    make_rgb_jpeg(input, 600, 400);

    let out = "/tmp/ic_resize_step_out.jpg";
    let conv = ImageConvert::new(input).unwrap();
    let resized = conv.resize(300, out).unwrap();
    assert_eq!((resized.width(), resized.height()), (300, 200));

    let written = ImageFile::new(out).unwrap();
    assert_eq!((written.width, written.height), (300, 200));
}

#[test]
fn error_message_is_exposed() {
    let err = resize_and_webp("bad", 10, "x").unwrap_err();
    assert!(!err.message().is_empty());
}
