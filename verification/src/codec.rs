//! The image codecs the engine drives: decoding, JPEG and PNG encoding and Lanczos resampling
//! from the `image` crate, lossless PNG optimisation from `oxipng`.
//!
//! Nothing is proved of the codecs. Each codec call stands behind one function whose contract is
//! taken on trust, and what a call returns is given a name, so that the verified engine can say
//! which bytes it hands back without describing a compression format. The claim behind every
//! name is the same: the codec call is a function of its arguments and of nothing else.

use vstd::prelude::*;

use crate::chunks::{chunks_sound, has_png_signature};

verus! {

#[verifier::external_type_specification]
#[verifier::external_body]
pub struct ExDynamicImage(image::DynamicImage);

#[verifier::external_type_specification]
#[verifier::external_body]
pub struct ExImageError(image::ImageError);

#[verifier::external_type_specification]
#[verifier::external_body]
pub struct ExPngError(oxipng::PngError);

/// A decoded picture: its pixel buffer, which only the codecs look into, and the two numbers
/// the engine reads from it.
pub struct Picture {
    width: u32,
    height: u32,
    pixels: image::DynamicImage,
}

impl Picture {
    /// Width in pixels, as the codec reported it when the picture was made.
    pub closed spec fn spec_width(&self) -> u32 {
        self.width
    }

    /// Height in pixels, as the codec reported it when the picture was made.
    pub closed spec fn spec_height(&self) -> u32 {
        self.height
    }

    /// Both sides are within what a JPEG file can record: `1..=65535`.
    pub open spec fn jpeg_encodable(&self) -> bool {
        &&& 1 <= self.spec_width() <= 65535
        &&& 1 <= self.spec_height() <= 65535
    }

    #[verifier::when_used_as_spec(spec_width)]
    pub fn width(&self) -> (w: u32)
        ensures
            w == self.spec_width(),
    {
        self.width
    }

    #[verifier::when_used_as_spec(spec_height)]
    pub fn height(&self) -> (h: u32)
        ensures
            h == self.spec_height(),
    {
        self.height
    }
}

/// The switches of the PNG optimiser that the engine sets; every other switch keeps the value
/// the preset gives it.
#[derive(Clone, Copy, Debug, PartialEq, Eq, Structural)]
pub struct PngEffort {
    /// Optimisation preset, `0` (fastest) to `6` (smallest output).
    pub preset: u8,
    pub optimize_alpha: bool,
    pub bit_depth_reduction: bool,
    pub color_type_reduction: bool,
    pub palette_reduction: bool,
    pub grayscale_reduction: bool,
}

/// What `image` makes of `data` when the format is guessed from the first bytes: the picture,
/// or `None` where the format is not recognised or the decoder reports an error.
pub uninterp spec fn decoded(data: Seq<u8>) -> Option<Picture>;

/// The JPEG file that `image`'s `JpegEncoder` writes for `picture` at `quality`, or `None` where
/// it reports an error.
pub uninterp spec fn jpeg_encoding(picture: Picture, quality: u8) -> Option<Seq<u8>>;

/// The PNG file that `image` writes for `picture`, or `None` where it reports an error.
pub uninterp spec fn png_encoding(picture: Picture) -> Option<Seq<u8>>;

/// `picture` resampled by `image` with the Lanczos filter (window 3) to fit `width` by `height`.
pub uninterp spec fn resized(picture: Picture, width: u32, height: u32) -> Picture;

/// What `oxipng` makes of the PNG file `data` under `effort`: the optimised file, or `None`
/// where it reports an error.
pub uninterp spec fn optimized_png(data: Seq<u8>, effort: PngEffort) -> Option<Seq<u8>>;

/// Calls `image::guess_format`, which tells the format from the signature at the start of the
/// bytes, and then `image::load_from_memory_with_format`, which decodes the whole picture. The
/// two read nothing but their arguments; `image::load_from_memory` is not called, because it
/// consults the decoders that were registered with the process first.
///
/// Trusted: the calls succeed exactly where [`decoded`] is `Some`, and then return that
/// picture; that is, decoding the same bytes twice gives the same picture.
#[verifier::external_body]
pub(crate) fn decode(data: &[u8]) -> (r: Result<Picture, image::ImageError>)
    ensures
        r is Ok <==> decoded(data@) is Some,
        r matches Ok(picture) ==> decoded(data@) == Some(picture),
{
    let loaded = match image::guess_format(data) {
        Ok(format) => image::load_from_memory_with_format(data, format),
        Err(error) => Err(error),
    };
    match loaded {
        Ok(pixels) => Ok(Picture { width: pixels.width(), height: pixels.height(), pixels }),
        Err(error) => Err(error),
    }
}

/// Converts the picture to 8-bit RGB and calls `JpegEncoder::new_with_quality(..).encode(..)` of
/// `image::codecs::jpeg` on it. The encoder clamps `quality` to `1..=100` itself. It refuses a
/// picture with a side of `0` or above `65535` and no other, since writing into memory does
/// not fail.
///
/// Trusted: the call succeeds exactly on the pictures that are [`Picture::jpeg_encodable`];
/// it succeeds exactly where [`jpeg_encoding`] is `Some`, and then returns those bytes.
#[verifier::external_body]
pub(crate) fn compress_jpeg_with_quality(picture: &Picture, quality: u8) -> (r: Result<
    Vec<u8>,
    image::ImageError,
>)
    ensures
        r is Ok <==> picture.jpeg_encodable(),
        r is Ok <==> jpeg_encoding(*picture, quality) is Some,
        r matches Ok(bytes) ==> jpeg_encoding(*picture, quality) == Some(bytes@),
{
    let rgb = picture.pixels.to_rgb8();
    let (width, height) = rgb.dimensions();
    let mut output = Vec::new();
    let written = image::codecs::jpeg::JpegEncoder::new_with_quality(&mut output, quality)
        .encode(&rgb, width, height, image::ExtendedColorType::Rgb8);
    match written {
        Ok(()) => Ok(output),
        Err(error) => Err(error),
    }
}

/// Calls `DynamicImage::write_to` with `ImageFormat::Png` on an in-memory cursor.
///
/// Trusted: the call succeeds exactly where [`png_encoding`] is `Some`, and then returns those
/// bytes.
#[verifier::external_body]
pub(crate) fn encode_png(picture: &Picture) -> (r: Result<Vec<u8>, image::ImageError>)
    ensures
        r is Ok <==> png_encoding(*picture) is Some,
        r matches Ok(bytes) ==> png_encoding(*picture) == Some(bytes@),
{
    let mut buffer = Vec::new();
    let written = picture.pixels.write_to(
        &mut std::io::Cursor::new(&mut buffer),
        image::ImageFormat::Png,
    );
    match written {
        Ok(()) => Ok(buffer),
        Err(error) => Err(error),
    }
}

/// Calls `DynamicImage::resize` with `FilterType::Lanczos3`. The call keeps the aspect ratio:
/// it scales both sides by the smaller of the two ratios of target to side, rounds, and never
/// makes a side shorter than one pixel, so a target of `0` is allowed. A target larger than
/// the picture is left out: the call allocates the new buffer and panics where its size
/// overflows.
///
/// Trusted: the result is [`resized`] of the arguments; and where the picture has no side of
/// `0`, neither has the result, and no side of the result is longer than its target, or than
/// one pixel where the target is `0`.
#[verifier::external_body]
pub(crate) fn resize_lanczos3(picture: &Picture, width: u32, height: u32) -> (small: Picture)
    requires
        width <= picture.spec_width(),
        height <= picture.spec_height(),
    ensures
        small == resized(*picture, width, height),
        picture.spec_width() >= 1 && picture.spec_height() >= 1 ==> {
            &&& 1 <= small.spec_width()
            &&& 1 <= small.spec_height()
            &&& small.spec_width() <= width || small.spec_width() == 1
            &&& small.spec_height() <= height || small.spec_height() == 1
        },
{
    let pixels = picture.pixels.resize(width, height, image::imageops::FilterType::Lanczos3);
    Picture { width: pixels.width(), height: pixels.height(), pixels }
}

/// Calls `oxipng::optimize_from_memory` with `Options::from_preset(effort.preset)`, in which the
/// five reduction switches are set from `effort`. The preset leaves `force` off and sets no
/// deadline, so the call hands back the given bytes where it found nothing smaller.
///
/// Only a file that decodes as a picture is handed over: the call checks little of what it
/// reads, and the decoder has checked it by then. Of those files, the ones whose chunks are
/// not sound ([`chunks_sound`]) are left out as well, because the call panics on some of
/// them:
/// - it reads the sequence number of an `fcTL` or `fdAT` chunk before it looks at the chunk's
///   length, and it sizes a buffer by the sides that an `fcTL` chunk declares for its frame;
///   so no file with such a chunk is handed over;
/// - it sizes its pixel buffer by the sides and the layout that the last `IHDR` chunk
///   declares, before it reads a pixel, and it expects every row to hold a pixel at least; so
///   the file has to start with its one header chunk, which has to declare sides of one or
///   more, no more pixels than a decoded picture can have, and a bit depth that its colour
///   type allows.
///
/// Trusted: the call succeeds exactly where [`optimized_png`] is `Some`, and then returns those
/// bytes, which are a PNG file again and never more than it was given.
#[verifier::external_body]
pub(crate) fn optimize_png(data: &[u8], effort: &PngEffort) -> (r: Result<
    Vec<u8>,
    oxipng::PngError,
>)
    requires
        chunks_sound(data@),
        decoded(data@) is Some,
    ensures
        r is Ok <==> optimized_png(data@, *effort) is Some,
        r matches Ok(bytes) ==> optimized_png(data@, *effort) == Some(bytes@),
        r matches Ok(bytes) ==> bytes@.len() <= data@.len(),
        r matches Ok(bytes) ==> has_png_signature(bytes@),
{
    let mut options = oxipng::Options::from_preset(effort.preset);
    options.optimize_alpha = effort.optimize_alpha;
    options.bit_depth_reduction = effort.bit_depth_reduction;
    options.color_type_reduction = effort.color_type_reduction;
    options.palette_reduction = effort.palette_reduction;
    options.grayscale_reduction = effort.grayscale_reduction;
    oxipng::optimize_from_memory(data, &options)
}

} // verus!
