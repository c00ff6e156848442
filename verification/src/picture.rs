//! Still images: how far to scale down, which format to write, and when to keep the input.

use vstd::prelude::*;
use crate::error::{ErrorKind, Failure};
use crate::text::{ascii_lowered, chars_of, lowered_equals};
use image::codecs::jpeg::JpegEncoder;
use image::codecs::png;
use image::imageops;

verus! {

/// Longest side, in pixels, that an image keeps.
pub const MAX_DIMENSION: u32 = 2048;

/// Quality handed to the lossy encoder, on its scale from 1 to 100.
pub const JPEG_QUALITY: u8 = 85;

/// The formats that the pipeline writes.
#[derive(Clone, Copy, Debug, PartialEq, Eq, Structural)]
pub enum OutputFormat {
    /// Lossy; the default.
    Jpeg,
    /// Lossless; kept for images that carry transparency.
    Png,
    /// Kept as it is, since it may hold an animation.
    Gif,
}

/// How pixels are sampled when an image is scaled.
#[derive(Clone, Copy, Debug, PartialEq, Eq, Structural)]
pub enum Resampling {
    Nearest,
    Triangle,
    CatmullRom,
    Gaussian,
    Lanczos3,
}

/// How hard the lossless encoder tries to make its output small.
#[derive(Clone, Copy, Debug, PartialEq, Eq, Structural)]
pub enum PngEffort {
    Fast,
    Best,
}

/// How the lossless encoder prepares each row of pixels before it compresses it.
#[derive(Clone, Copy, Debug, PartialEq, Eq, Structural)]
pub enum PngFilter {
    NoFilter,
    Sub,
    Up,
    Avg,
    Paeth,
    Adaptive,
}

/// The bytes to write for a compressed image, and the extension of the file that takes them.
#[derive(Debug)]
pub struct ImageOutput {
    pub extension: String,
    pub bytes: Vec<u8>,
}

/// A decoded image, as the `image` crate holds it.
#[verifier::external_type_specification]
#[verifier::external_body]
pub struct ExDynamicImage(image::DynamicImage);

/// A decoded image: its pixels, and beside them what the pipeline reads of them. Only the
/// functions below that decode or scale make a picture, and they read the three values off the
/// pixels they put into it.
#[derive(Debug)]
pub struct Picture {
    width: u32,
    height: u32,
    has_alpha: bool,
    pixels: image::DynamicImage,
}

impl Picture {
    /// Width in pixels.
    pub closed spec fn pixel_width(&self) -> int {
        self.width as int
    }

    /// Height in pixels.
    pub closed spec fn pixel_height(&self) -> int {
        self.height as int
    }

    /// Whether the pixels carry an alpha channel.
    pub closed spec fn carries_alpha(&self) -> bool {
        self.has_alpha
    }

    /// The pixels, as the operations of the `image` crate see them.
    pub closed spec fn content(&self) -> Seq<u8> {
        image_content(self.pixels)
    }

    /// What is known of the picture, as one plain value: width, height, alpha, content.
    pub open spec fn model(&self) -> (int, int, bool, Seq<u8>) {
        (self.pixel_width(), self.pixel_height(), self.carries_alpha(), self.content())
    }

    /// Width in pixels.
    pub fn width(&self) -> (width: u32)
        ensures
            width == self.pixel_width(),
    {
        self.width
    }

    /// Height in pixels.
    pub fn height(&self) -> (height: u32)
        ensures
            height == self.pixel_height(),
    {
        self.height
    }

    /// Whether the pixels carry an alpha channel.
    pub fn has_alpha(&self) -> (alpha: bool)
        ensures
            alpha == self.carries_alpha(),
    {
        self.has_alpha
    }
}

/// An image as the operations of the `image` crate see it, as one run of bytes: its size, the
/// kind of its pixels and their samples. Images of the same content are the same image to every
/// operation of the crate.
pub uninterp spec fn image_content(image: image::DynamicImage) -> Seq<u8>;

/// What `image::load_from_memory_with_format` makes of these bytes, read in the format that
/// `image::ImageFormat::from_extension` ties to the extension: the decoded image's width, height,
/// alpha flag and content; nothing where the extension names no format the crate knows, or
/// where the bytes do not decode.
pub uninterp spec fn decoding_of(bytes: Seq<u8>, extension: Seq<char>) -> Option<
    (int, int, bool, Seq<u8>),
>;

/// The content of the copy that `image::DynamicImage::resize_exact` makes of an image.
pub uninterp spec fn resampling_of(
    content: Seq<u8>,
    width: int,
    height: int,
    resampling: Resampling,
) -> Seq<u8>;

/// The bytes that `image::codecs::jpeg::JpegEncoder` writes for an image at a quality, if it
/// can encode it.
pub uninterp spec fn jpeg_of(content: Seq<u8>, quality: u8) -> Option<Seq<u8>>;

/// The bytes that `image::codecs::png::PngEncoder` writes for an image with the given effort and
/// filter, if it can encode it.
pub uninterp spec fn png_of(content: Seq<u8>, effort: PngEffort, filter: PngFilter) -> Option<
    Seq<u8>,
>;

/// The bytes that `image::DynamicImage::write_to` writes for an image in a format, if it can
/// encode it.
pub uninterp spec fn written_as(content: Seq<u8>, format: OutputFormat) -> Option<Seq<u8>>;

/// An image is over the limit when either side is longer than `MAX_DIMENSION`.
pub open spec fn over_limit(width: int, height: int) -> bool {
    width > MAX_DIMENSION || height > MAX_DIMENSION
}

/// The least whole number of pixels that is no less than `side * MAX_DIMENSION / longest`.
pub open spec fn scaled_side(side: int, longest: int) -> int {
    (side * MAX_DIMENSION + longest - 1) / longest
}

/// The size an image is scaled to: its own when it is within the limit, else the longer side
/// becomes `MAX_DIMENSION` and the shorter one follows in proportion, rounded up.
pub open spec fn target_size(width: int, height: int) -> (int, int) {
    if !over_limit(width, height) {
        (width, height)
    } else if width >= height {
        (MAX_DIMENSION as int, scaled_side(height, width))
    } else {
        (scaled_side(width, height), MAX_DIMENSION as int)
    }
}

/// The format written for an input with the given extension, compared without regard to ASCII
/// case: `png` stays lossless only with an alpha channel, `gif` stays `gif`, all else is lossy.
pub open spec fn format_for(extension: Seq<char>, has_alpha: bool) -> OutputFormat {
    let lowered = ascii_lowered(extension);
    if lowered == "png"@ {
        if has_alpha {
            OutputFormat::Png
        } else {
            OutputFormat::Jpeg
        }
    } else if lowered == "gif"@ {
        OutputFormat::Gif
    } else {
        OutputFormat::Jpeg
    }
}

/// The extension of a file written in `format`.
pub open spec fn extension_of(format: OutputFormat) -> Seq<char> {
    match format {
        OutputFormat::Jpeg => "jpg"@,
        OutputFormat::Png => "png"@,
        OutputFormat::Gif => "gif"@,
    }
}

/// What ends up at the destination: the encoded bytes if they are fewer than the input's,
/// else the input, byte for byte.
pub open spec fn settled(input: Seq<u8>, encoded: Seq<u8>) -> Seq<u8> {
    if encoded.len() >= input.len() {
        input
    } else {
        encoded
    }
}

/// The content of an image once it is within the limit: its own, or that of the copy scaled to
/// `target_size` through a Lanczos window.
pub open spec fn fitted_content(width: int, height: int, content: Seq<u8>) -> Seq<u8> {
    if over_limit(width, height) {
        resampling_of(
            content,
            target_size(width, height).0,
            target_size(width, height).1,
            Resampling::Lanczos3,
        )
    } else {
        content
    }
}

/// The bytes an image is encoded to in a format: lossy at `JPEG_QUALITY`, lossless with the
/// greatest effort and an adaptive filter, or as GIF with the encoder's own settings.
pub open spec fn encoding_of(content: Seq<u8>, format: OutputFormat) -> Option<Seq<u8>> {
    match format {
        OutputFormat::Jpeg => jpeg_of(content, JPEG_QUALITY),
        OutputFormat::Png => png_of(content, PngEffort::Best, PngFilter::Adaptive),
        OutputFormat::Gif => written_as(content, OutputFormat::Gif),
    }
}

/// What compressing a decoded image comes to: the extension and the bytes of the output, or
/// nothing where the image cannot be encoded. The image is brought within the limit, encoded in
/// the format that its extension and its alpha channel call for, and the encoding is kept only
/// if it is shorter than the input.
pub open spec fn compressed_from(
    picture: (int, int, bool, Seq<u8>),
    extension: Seq<char>,
    input: Seq<u8>,
) -> Option<(Seq<char>, Seq<u8>)> {
    let format = format_for(extension, picture.2);
    match encoding_of(fitted_content(picture.0, picture.1, picture.3), format) {
        Some(encoded) => Some((extension_of(format), settled(input, encoded))),
        None => None,
    }
}

/// What compressing the content of an image file comes to: the extension and the bytes of the
/// output, or nothing where the content cannot be decoded or the image cannot be encoded.
pub open spec fn compressed(input: Seq<u8>, extension: Seq<char>) -> Option<(Seq<char>, Seq<u8>)> {
    match decoding_of(input, extension) {
        Some(picture) => compressed_from(picture, extension, input),
        None => None,
    }
}

/// The result of a compression says what was expected of it; a compression that comes to
/// nothing is a codec failure.
pub open spec fn delivers(
    result: Result<ImageOutput, Failure>,
    expected: Option<(Seq<char>, Seq<u8>)>,
) -> bool {
    match expected {
        Some((extension, bytes)) => result matches Ok(output) && output.extension@ == extension
            && output.bytes@ == bytes,
        None => result matches Err(failure) && failure.kind == ErrorKind::Codec,
    }
}

/// Whether an image of this size has to be scaled down.
pub fn exceeds_limit(width: u32, height: u32) -> (over: bool)
    ensures
        over == over_limit(width as int, height as int),
{
    width > MAX_DIMENSION || height > MAX_DIMENSION
}

/// Scaling keeps the longer side at `MAX_DIMENSION` and the proportion of the sides to within one
/// pixel: the shorter side is the exact quotient rounded up.
pub proof fn lemma_target_size_keeps_proportion(width: int, height: int)
    requires
        0 <= width,
        0 <= height,
        over_limit(width, height),
    ensures
        ({
            let (w, h) = target_size(width, height);
            &&& 0 <= w <= MAX_DIMENSION
            &&& 0 <= h <= MAX_DIMENSION
            &&& (if w >= h { w } else { h }) == MAX_DIMENSION
            &&& width >= height ==> w == MAX_DIMENSION && (h - 1) * width < height * MAX_DIMENSION
                <= h * width
            &&& width < height ==> h == MAX_DIMENSION && (w - 1) * height < width * MAX_DIMENSION
                <= w * height
        }),
{
    if width >= height {
        lemma_scaled_side(height, width);
    } else {
        lemma_scaled_side(width, height);
    }
}

/// `scaled_side` is the ceiling of the exact quotient, and never exceeds the limit.
proof fn lemma_scaled_side(side: int, longest: int)
    requires
        0 <= side <= longest,
        0 < longest,
    ensures
        0 <= scaled_side(side, longest) <= MAX_DIMENSION,
        (scaled_side(side, longest) - 1) * longest < side * MAX_DIMENSION,
        side * MAX_DIMENSION <= scaled_side(side, longest) * longest,
{
    let n = side * MAX_DIMENSION + longest - 1;
    let q = n / longest;
    assert(0 <= n) by (nonlinear_arith)
        requires
            0 <= side,
            0 < longest,
            n == side * MAX_DIMENSION + longest - 1,
    ;
    assert(n == q * longest + n % longest && 0 <= n % longest < longest) by (nonlinear_arith)
        requires
            0 < longest,
            q == n / longest,
    ;
    assert(0 <= q) by (nonlinear_arith)
        requires
            0 <= n,
            0 < longest,
            n == q * longest + n % longest,
            n % longest < longest,
    ;
    assert(q <= MAX_DIMENSION) by (nonlinear_arith)
        requires
            side <= longest,
            0 < longest,
            n == side * MAX_DIMENSION + longest - 1,
            n == q * longest + n % longest,
            0 <= n % longest,
    ;
    assert((q - 1) * longest == q * longest - longest) by (nonlinear_arith);
}

/// The size to scale an image to.
pub fn target_dimensions(width: u32, height: u32) -> (target: (u32, u32))
    ensures
        target.0 == target_size(width as int, height as int).0,
        target.1 == target_size(width as int, height as int).1,
{
    if !exceeds_limit(width, height) {
        (width, height)
    } else if width >= height {
        proof {
            lemma_scaled_side(height as int, width as int);
        }
        let scaled: u64 = (height as u64 * MAX_DIMENSION as u64 + width as u64 - 1) / (width as u64);
        (MAX_DIMENSION, scaled as u32)
    } else {
        proof {
            lemma_scaled_side(width as int, height as int);
        }
        let scaled: u64 = (width as u64 * MAX_DIMENSION as u64 + height as u64 - 1) / (height as u64);
        (scaled as u32, MAX_DIMENSION)
    }
}

/// The format to write for an input with this extension.
pub fn output_format(extension: &str, has_alpha: bool) -> (format: OutputFormat)
    ensures
        format == format_for(extension@, has_alpha),
{
    let ext = chars_of(extension);
    if lowered_equals(&ext, &chars_of("png")) {
        if has_alpha {
            OutputFormat::Png
        } else {
            OutputFormat::Jpeg
        }
    } else if lowered_equals(&ext, &chars_of("gif")) {
        OutputFormat::Gif
    } else {
        OutputFormat::Jpeg
    }
}

/// The extension of a file written in `format`.
pub fn output_extension(format: OutputFormat) -> (extension: String)
    ensures
        extension@ == extension_of(format),
{
    match format {
        OutputFormat::Jpeg => String::from_str("jpg"),
        OutputFormat::Png => String::from_str("png"),
        OutputFormat::Gif => String::from_str("gif"),
    }
}

/// Keeps the encoded bytes only if they are fewer than the input's.
pub fn settle(input: &Vec<u8>, encoded: Vec<u8>) -> (kept: Vec<u8>)
    ensures
        kept@ == settled(input@, encoded@),
{
    if encoded.len() >= input.len() {
        input.clone()
    } else {
        encoded
    }
}

/// `image::ImageFormat::from_extension`, then `image::load_from_memory_with_format`: decodes
/// `bytes` in the format that the crate ties to the extension. Gives nothing where the crate
/// knows no format for the extension, and the decoder's complaint where the bytes do not decode.
/// The picture's size and alpha flag are what `width`, `height` and `color().has_alpha()` say of
/// the decoded image.
#[verifier::external_body]
fn decode_by_extension(bytes: &Vec<u8>, extension: &str) -> (decoded: Option<
    Result<Picture, String>,
>)
    ensures
        decoded matches Some(Ok(picture)) ==> decoding_of(bytes@, extension@) == Some(
            picture.model(),
        ),
        !(decoded matches Some(Ok(_))) ==> decoding_of(bytes@, extension@) is None,
{
    let format = image::ImageFormat::from_extension(extension);
    let decoded = format.map(|format| image::load_from_memory_with_format(bytes, format));
    let described = |pixels: image::DynamicImage|
        Picture {
            width: pixels.width(),
            height: pixels.height(),
            has_alpha: pixels.color().has_alpha(),
            pixels,
        };
    decoded.map(|outcome| outcome.map(described).map_err(|e| e.to_string()))
}

/// `image::DynamicImage::resize_exact`: a copy of exactly `width` by `height` pixels, sampled as
/// asked. The copy holds pixels of the same kind, so it has an alpha channel exactly if the
/// picture has one.
#[verifier::external_body]
fn resize_exact(picture: &Picture, width: u32, height: u32, resampling: Resampling) -> (scaled:
    Picture)
    requires
        width <= MAX_DIMENSION,
        height <= MAX_DIMENSION,
    ensures
        scaled.model() == (
            width as int,
            height as int,
            picture.carries_alpha(),
            resampling_of(image_content(picture.pixels), width as int, height as int, resampling),
        ),
{
    let filter = match resampling {
        Resampling::Nearest => imageops::FilterType::Nearest,
        Resampling::Triangle => imageops::FilterType::Triangle,
        Resampling::CatmullRom => imageops::FilterType::CatmullRom,
        Resampling::Gaussian => imageops::FilterType::Gaussian,
        Resampling::Lanczos3 => imageops::FilterType::Lanczos3,
    };
    let pixels = picture.pixels.resize_exact(width, height, filter);
    let (width, height, has_alpha) = (pixels.width(), pixels.height(), pixels.color().has_alpha());
    Picture { width, height, has_alpha, pixels }
}

/// `image::codecs::jpeg::JpegEncoder::new_with_quality` and `encode_image`, on the pixels as
/// `image::DynamicImage::to_rgb8` gives them: the image as JPEG bytes, or the encoder's complaint.
#[verifier::external_body]
fn encode_jpeg(picture: &Picture, quality: u8) -> (encoded: Result<Vec<u8>, String>)
    ensures
        encoded matches Ok(bytes) ==> jpeg_of(image_content(picture.pixels), quality) == Some(bytes@),
        encoded is Err ==> jpeg_of(image_content(picture.pixels), quality) is None,
{
    let rgb = picture.pixels.to_rgb8();
    let mut out: Vec<u8> = Vec::new();
    let done = JpegEncoder::new_with_quality(&mut out, quality).encode_image(&rgb);
    done.map(|_| out).map_err(|e| e.to_string())
}

/// `image::codecs::png::PngEncoder::new_with_quality`, handed to
/// `image::DynamicImage::write_with_encoder`: the image as PNG bytes, or the encoder's complaint.
#[verifier::external_body]
fn encode_png(picture: &Picture, effort: PngEffort, filter: PngFilter) -> (encoded: Result<
    Vec<u8>,
    String,
>)
    ensures
        encoded matches Ok(bytes) ==> png_of(image_content(picture.pixels), effort, filter) == Some(bytes@),
        encoded is Err ==> png_of(image_content(picture.pixels), effort, filter) is None,
{
    let level = match effort {
        PngEffort::Fast => png::CompressionType::Fast,
        PngEffort::Best => png::CompressionType::Best,
    };
    let rows = match filter {
        PngFilter::NoFilter => png::FilterType::NoFilter,
        PngFilter::Sub => png::FilterType::Sub,
        PngFilter::Up => png::FilterType::Up,
        PngFilter::Avg => png::FilterType::Avg,
        PngFilter::Paeth => png::FilterType::Paeth,
        PngFilter::Adaptive => png::FilterType::Adaptive,
    };
    let mut out: Vec<u8> = Vec::new();
    let encoder = png::PngEncoder::new_with_quality(&mut out, level, rows);
    picture.pixels.write_with_encoder(encoder).map(|_| out).map_err(|e| e.to_string())
}

/// `image::DynamicImage::write_to`: the image encoded in the given format with the crate's own
/// settings, or the encoder's complaint.
#[verifier::external_body]
fn encode_as(picture: &Picture, format: OutputFormat) -> (encoded: Result<Vec<u8>, String>)
    ensures
        encoded matches Ok(bytes) ==> written_as(image_content(picture.pixels), format) == Some(bytes@),
        encoded is Err ==> written_as(image_content(picture.pixels), format) is None,
{
    let kind = match format {
        OutputFormat::Jpeg => image::ImageFormat::Jpeg,
        OutputFormat::Png => image::ImageFormat::Png,
        OutputFormat::Gif => image::ImageFormat::Gif,
    };
    let mut out = std::io::Cursor::new(Vec::new());
    let done = picture.pixels.write_to(&mut out, kind);
    done.map(|_| out.into_inner()).map_err(|e| e.to_string())
}

/// Decodes an image held in memory, reading it as the extension of its file's name says.
pub fn decode(input: &Vec<u8>, extension: &str) -> (result: Result<Picture, Failure>)
    ensures
        result matches Ok(picture) ==> decoding_of(input@, extension@) == Some(picture.model()),
        result matches Err(failure) ==> decoding_of(input@, extension@) is None && failure.kind
            == ErrorKind::Codec,
{
    match decode_by_extension(input, extension) {
        Some(Ok(picture)) => Ok(picture),
        Some(Err(cause)) => Err(Failure::from_cause(ErrorKind::Codec, cause)),
        None => Err(Failure::new(ErrorKind::Codec, "The image format could not be determined")),
    }
}

/// Scales a picture down to `target_size` if it is over the limit, sampling through a Lanczos
/// window; a picture within the limit is handed back as it is. What comes back is within the
/// limit, with its longer side at the limit if the picture was over it, and has an alpha channel
/// exactly if the picture has one.
pub fn fit_to_limit(picture: Picture) -> (fitted: Picture)
    ensures
        fitted.model() == (
            target_size(picture.pixel_width(), picture.pixel_height()).0,
            target_size(picture.pixel_width(), picture.pixel_height()).1,
            picture.carries_alpha(),
            fitted_content(picture.pixel_width(), picture.pixel_height(), picture.content()),
        ),
        !over_limit(picture.pixel_width(), picture.pixel_height()) ==> fitted == picture,
        !over_limit(fitted.pixel_width(), fitted.pixel_height()),
        over_limit(picture.pixel_width(), picture.pixel_height()) ==> (if fitted.pixel_width()
            >= fitted.pixel_height() {
            fitted.pixel_width()
        } else {
            fitted.pixel_height()
        }) == MAX_DIMENSION,
{
    if exceeds_limit(picture.width, picture.height) {
        let target = target_dimensions(picture.width, picture.height);
        proof {
            lemma_target_size_keeps_proportion(picture.width as int, picture.height as int);
        }
        resize_exact(&picture, target.0, target.1, Resampling::Lanczos3)
    } else {
        picture
    }
}

/// Encodes a picture in the given format: lossy at `JPEG_QUALITY`, lossless with the greatest
/// effort and an adaptive filter, or as GIF.
pub fn encode(picture: &Picture, format: OutputFormat) -> (result: Result<Vec<u8>, Failure>)
    ensures
        result matches Ok(bytes) ==> encoding_of(picture.content(), format) == Some(bytes@),
        result matches Err(failure) ==> encoding_of(picture.content(), format) is None
            && failure.kind == ErrorKind::Codec,
{
    let encoded = match format {
        OutputFormat::Jpeg => encode_jpeg(picture, JPEG_QUALITY),
        OutputFormat::Png => encode_png(picture, PngEffort::Best, PngFilter::Adaptive),
        OutputFormat::Gif => encode_as(picture, OutputFormat::Gif),
    };
    match encoded {
        Ok(bytes) => Ok(bytes),
        Err(cause) => Err(Failure::from_cause(ErrorKind::Codec, cause)),
    }
}

/// Compresses a decoded picture.
///
/// `input` is the content of the file the picture was decoded from and `extension` the
/// extension of its name. The picture is scaled down if it is over the limit and written in the
/// format that `format_for` gives; what is handed back is smaller than `input`, or `input` itself.
pub fn compress_picture(picture: Picture, extension: &str, input: &Vec<u8>) -> (result: Result<
    ImageOutput,
    Failure,
>)
    ensures
        delivers(result, compressed_from(picture.model(), extension@, input@)),
{
    let fitted = fit_to_limit(picture);
    let format = output_format(extension, fitted.has_alpha);
    match encode(&fitted, format) {
        Ok(bytes) => Ok(
            ImageOutput { extension: output_extension(format), bytes: settle(input, bytes) },
        ),
        Err(failure) => Err(failure),
    }
}

/// Compresses one image held in memory.
///
/// `input` is the file's content and `extension` the extension of its name, which alone decides
/// how the content is read. The image is decoded, scaled down if it is over the limit, written in
/// the format that `format_for` gives, and the result is kept only if it is smaller than `input`.
pub fn compress_image(input: &Vec<u8>, extension: &str) -> (result: Result<ImageOutput, Failure>)
    ensures
        delivers(result, compressed(input@, extension@)),
{
    match decode(input, extension) {
        Ok(picture) => compress_picture(picture, extension, input),
        Err(failure) => Err(failure),
    }
}

/// What a compression hands back is never longer than the input: it is shorter, or it is the
/// input itself, byte for byte and so of the same size.
pub proof fn lemma_compressed_never_grows(input: Seq<u8>, extension: Seq<char>)
    ensures
        compressed(input, extension) matches Some((_, bytes)) ==> bytes == input || bytes.len()
            < input.len(),
{
}

/// An image file named `png`, in whatever case, comes out as `png` if the decoded image has an
/// alpha channel and as `jpg` if it has none; one named `gif` comes out as `gif`; every other
/// comes out as `jpg`.
pub proof fn lemma_extension_follows_the_policy(input: Seq<u8>, extension: Seq<char>)
    ensures
        compressed(input, extension) matches Some((written, _)) ==> {
            let alpha = decoding_of(input, extension).unwrap().2;
            let lowered = ascii_lowered(extension);
            written == if lowered == "png"@ {
                if alpha {
                    "png"@
                } else {
                    "jpg"@
                }
            } else if lowered == "gif"@ {
                "gif"@
            } else {
                "jpg"@
            }
        },
{
}

/// Where the encoding of the image is no shorter than the input, what is handed back is the
/// input itself, byte for byte, and so of the input's size.
pub proof fn lemma_no_gain_keeps_the_input(input: Seq<u8>, extension: Seq<char>)
    requires
        decoding_of(input, extension) matches Some(picture) && (encoding_of(
            fitted_content(picture.0, picture.1, picture.3),
            format_for(extension, picture.2),
        ) matches Some(encoded) && encoded.len() >= input.len()),
    ensures
        compressed(input, extension) matches Some((_, bytes)) && bytes == input && bytes.len()
            == input.len(),
{
}

/// What is settled on is never longer than the input, and where the encoding is no shorter than
/// the input it is the input itself, byte for byte and so of the same size.
pub proof fn lemma_settled_never_grows(input: Seq<u8>, encoded: Seq<u8>)
    ensures
        settled(input, encoded).len() <= input.len(),
        encoded.len() >= input.len() ==> settled(input, encoded) == input,
        encoded.len() < input.len() ==> settled(input, encoded) == encoded,
{
}

} // verus!
