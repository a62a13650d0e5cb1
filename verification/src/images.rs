//! The pixel-buffer abstraction. An `ImageConvert` owns a decoded
//! image together with its recorded dimensions, so that the resize
//! engine's geometry is verified while the codec work itself stays
//! with the image and webp crates behind trusted wrappers.
use vstd::prelude::*;
use crate::errors::ConvertError;
use crate::geometry::fits_within;
use crate::geometry::spec_target_dims;
use crate::geometry::target_dimensions;

verus! {

/// The fixed quality setting of the secondary web-format encoding.
pub const WEBP_QUALITY: u8 = 75;

#[verifier::external_type_specification]
#[verifier::external_body]
pub struct ExDynamicImage(image::DynamicImage);

/// Relies on `image::open`: decodes the file at `path` into a pixel
/// buffer; what comes back depends on what is on disk, so nothing is
/// promised of the outcome.
#[verifier::external_body]
fn open_image(path: &str) -> (r: Result<image::DynamicImage, String>)
{
    image::open(path).map_err(|e| e.to_string())
}

/// Relies on `image::DynamicImage::width`: the pixel width of the
/// buffer.
#[verifier::external_body]
fn image_width(img: &image::DynamicImage) -> u32 {
    img.width()
}

/// Relies on `image::DynamicImage::height`: the pixel height of the
/// buffer.
#[verifier::external_body]
fn image_height(img: &image::DynamicImage) -> u32 {
    img.height()
}

/// Relies on `image::DynamicImage::resize_exact` with the Lanczos3
/// filter: resamples the buffer to exactly the given dimensions.
#[verifier::external_body]
fn resample_image(img: &image::DynamicImage, nwidth: u32, nheight: u32) -> (r:
    image::DynamicImage)
    requires
        1 <= nwidth,
        1 <= nheight,
{
    img.resize_exact(nwidth, nheight, image::imageops::FilterType::Lanczos3)
}

/// Relies on `image::DynamicImage::save`: encodes the buffer in the
/// container format named by the path's extension and writes it
/// there. Every failure of this persist step is a storage error on
/// the primary output path.
#[verifier::external_body]
fn save_image(img: &image::DynamicImage, path: &str) -> (r: Result<(), ConvertError>)
    ensures
        r matches Err(e) ==> e is Storage,
{
    match img.save(path) {
        Ok(()) => Ok(()),
        Err(e) => Err(ConvertError::Storage(e.to_string())),
    }
}

/// Relies on `image::DynamicImage::to_rgb8`: the buffer converted to
/// eight-bit RGB, dropping any alpha channel.
#[verifier::external_body]
fn to_rgb8_image(img: &image::DynamicImage) -> image::DynamicImage {
    image::DynamicImage::ImageRgb8(img.to_rgb8())
}

/// Relies on `image::DynamicImage::save_with_format` with the PNG
/// format: encodes the buffer as PNG and writes it to the path,
/// whatever extension the path carries.
#[verifier::external_body]
fn save_png_image(img: &image::DynamicImage, path: &str) -> (r: Result<(), ConvertError>)
    ensures
        r matches Err(e) ==> e is Encode || e is Storage,
{
    match img.save_with_format(path, image::ImageFormat::Png) {
        Ok(()) => Ok(()),
        Err(image::ImageError::IoError(e)) => Err(ConvertError::Storage(e.to_string())),
        Err(e) => Err(ConvertError::Encode(e.to_string())),
    }
}

/// Relies on `webp::Encoder::from_image` and
/// `webp::Encoder::encode_simple`: lossy webp bytes of the buffer at
/// the given quality. `from_image` refuses pixel layouts other than
/// eight-bit RGB and RGBA, and that refusal comes back as an error.
#[verifier::external_body]
fn webp_encode(img: &image::DynamicImage, quality: u8) -> (r: Result<Vec<u8>, String>)
    requires
        quality <= 100,
{
    let encoder = webp::Encoder::from_image(img).map_err(|e| e.to_string())?;
    match encoder.encode_simple(false, quality.into()) {
        Ok(mem) => Ok(mem.to_vec()),
        Err(e) => Err(format!("webp encoding failed: {:?}", e)),
    }
}

/// A decoded image and its recorded pixel dimensions.
pub struct ImageConvert {
    image: image::DynamicImage,
    width: u32,
    height: u32,
}

impl ImageConvert {
    /// The recorded pixel width of the buffer.
    pub closed spec fn spec_width(&self) -> u32 {
        self.width
    }

    /// The recorded pixel height of the buffer.
    pub closed spec fn spec_height(&self) -> u32 {
        self.height
    }

    /// The buffer's pixel width.
    pub fn width(&self) -> (r: u32)
        ensures
            r == self.spec_width(),
    {
        self.width
    }

    /// The buffer's pixel height.
    pub fn height(&self) -> (r: u32)
        ensures
            r == self.spec_height(),
    {
        self.height
    }

    /// Decodes the image at `path`. Every failure of the decoder is a
    /// decode error: a missing, unreadable, corrupt or unsupported
    /// file.
    pub fn new(path: &str) -> (r: Result<ImageConvert, ConvertError>)
        ensures
            r matches Err(e) ==> e is Decode,
    {
        match open_image(path) {
            Ok(img) => Ok(ImageConvert::from_image(img)),
            Err(msg) => Err(ConvertError::Decode(msg)),
        }
    }

    /// Wraps an already decoded buffer, recording its dimensions.
    pub fn from_image(image: image::DynamicImage) -> ImageConvert {
        let width = image_width(&image);
        let height = image_height(&image);
        ImageConvert { image, width, height }
    }

    /// The resize engine. Caps the image to `target_size` on its
    /// longest side, never upscaling, and persists the result at
    /// `output` in the container format named by that path's
    /// extension. The write happens on every call, also when the
    /// geometry is unchanged.
    pub fn resize(self, target_size: u32, output: &str) -> (r: Result<ImageConvert, ConvertError>)
        ensures
            r matches Ok(c) ==> (c.spec_width() as int, c.spec_height() as int)
                == spec_target_dims(self.spec_width(), self.spec_height(), target_size),
            r matches Ok(c) ==> (fits_within(self.spec_width(), self.spec_height(), target_size)
                ==> c.spec_width() == self.spec_width() && c.spec_height() == self.spec_height()),
            r matches Err(e) ==> e is Storage,
    {
        let (tw, th) = target_dimensions(self.width, self.height, target_size);
        let resized = if self.width <= target_size && self.height <= target_size {
            self.image
        } else {
            resample_image(&self.image, tw, th)
        };
        match save_image(&resized, output) {
            Ok(()) => Ok(ImageConvert { image: resized, width: tw, height: th }),
            Err(e) => Err(e),
        }
    }

    /// Encodes the buffer as lossy webp at the pipeline's fixed
    /// quality setting. A refusal of the encoder (an unsupported
    /// pixel layout) is an encode error.
    pub fn encode_webp(&self) -> (r: Result<Vec<u8>, ConvertError>)
        ensures
            r matches Err(e) ==> e is Encode,
    {
        match webp_encode(&self.image, WEBP_QUALITY) {
            Ok(bytes) => Ok(bytes),
            Err(msg) => Err(ConvertError::Encode(msg)),
        }
    }

    /// Encodes the buffer as PNG — always eight-bit RGB, dropping any
    /// alpha channel — and writes it to `output`.
    pub fn write_png(self, output: &str) -> (r: Result<(), ConvertError>)
        ensures
            r matches Err(e) ==> e is Encode || e is Storage,
    {
        let rgb = to_rgb8_image(&self.image);
        save_png_image(&rgb, output)
    }
}

} // verus!
