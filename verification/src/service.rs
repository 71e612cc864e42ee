//! The decisions of the HTTP resize service: reading the request's path
//! parameters, decoding the fetched upload, encoding the resized image, and
//! the reply to send for each outcome.
use image::DynamicImage;
use image::ImageFormat;
use vstd::prelude::*;

use crate::decimal::{parse_u32, parsed_u32};
use crate::raster::{rgba_len, rgba_view_of, Rgba8Image};
use vstd::string::StringExecFns;

verus! {

/// The most bytes of the fetched image body that the service reads.
pub const BODY_LIMIT: usize = 104_857_600;

/// The JPEG quality of the resized image that the service returns.
pub const JPEG_QUALITY: u8 = 100;

/// The text that `percent_encoding::percent_decode` followed by
/// `decode_utf8_lossy` makes of `raw`: each `%` and two hex digits become
/// that byte, and byte sequences that are not UTF-8 become U+FFFD.
pub uninterp spec fn percent_decoded(raw: Seq<char>) -> Seq<char>;

#[verifier::external_type_specification]
#[verifier::external_body]
pub struct ExImageFormat(ImageFormat);

/// The built-in format that `image::guess_format` recognises from the
/// leading bytes of `bytes`, or the text (`Display`) of its error.
pub uninterp spec fn guessed_format(bytes: Seq<u8>) -> Result<ImageFormat, Seq<char>>;

/// What `image::load_from_memory_with_format` makes of `bytes` read as
/// `format`: the decoded image, or the text (`Display`) of its error.
pub uninterp spec fn decoded_as(bytes: Seq<u8>, format: ImageFormat) -> Result<DynamicImage, Seq<char>>;

/// What the service makes of a fetched body: its format is guessed from its
/// leading bytes, and it is decoded as that format; or the text of the error
/// of the step that failed.
pub open spec fn decode_outcome(bytes: Seq<u8>) -> Result<DynamicImage, Seq<char>> {
    match guessed_format(bytes) {
        Ok(format) => decoded_as(bytes, format),
        Err(text) => Err(text),
    }
}

/// The JPEG stream that `image::codecs::jpeg::JpegEncoder::new_with_quality(_,
/// quality)` writes for `rgb`, an image of `width` by `height` pixels in RGB8
/// (`ExtendedColorType::Rgb8`), or the text (`Display`) of its error.
pub uninterp spec fn jpeg_of_rgb(width: u32, height: u32, rgb: Seq<u8>, quality: u8) -> Result<Seq<u8>, Seq<char>>;

/// Calls `percent_encoding::percent_decode` on the bytes of `raw`, then
/// `PercentDecode::decode_utf8_lossy`, and takes the text. The result is a
/// function of `raw` alone, named `percent_decoded`.
#[verifier::external_body]
fn percent_decode_lossy(raw: &str) -> (s: String)
    ensures
        s@ == percent_decoded(raw@),
{
    percent_encoding::percent_decode(raw.as_bytes()).decode_utf8_lossy().into_owned()
}

/// Calls `image::guess_format`, which compares the leading bytes of `bytes`
/// with the built-in signatures only (it consults no registered hook), and
/// turns its error into its text. The outcome is a function of the bytes
/// alone, named `guessed_format`.
#[verifier::external_body]
fn guess_format(bytes: &[u8]) -> (r: Result<ImageFormat, String>)
    ensures
        match r {
            Ok(format) => guessed_format(bytes@) == Ok::<ImageFormat, Seq<char>>(format),
            Err(text) => guessed_format(bytes@) == Err::<ImageFormat, Seq<char>>(text@),
        },
{
    image::guess_format(bytes).map_err(|e| format!("{}", e))
}

/// Calls `image::load_from_memory_with_format`, which decodes `bytes` with
/// the built-in decoder of `format` (no registered hook is consulted for a
/// built-in format) within the reader's default limits, and turns its error
/// into its text. The outcome is a function of the arguments alone, named
/// `decoded_as`.
#[verifier::external_body]
fn load_with_format(bytes: &[u8], format: ImageFormat) -> (r: Result<DynamicImage, String>)
    ensures
        match r {
            Ok(img) => decoded_as(bytes@, format) == Ok::<DynamicImage, Seq<char>>(img),
            Err(text) => decoded_as(bytes@, format) == Err::<DynamicImage, Seq<char>>(text@),
        },
{
    image::load_from_memory_with_format(bytes, format).map_err(|e| format!("{}", e))
}

/// Calls `JpegEncoder::new_with_quality` on an empty buffer and `encode`
/// with `rgb` as RGB8, and gives the buffer, or the text of the encoder's
/// error. The outcome is a function of the arguments alone, named
/// `jpeg_of_rgb`. The length bound is the one that `encode` asserts.
#[verifier::external_body]
fn jpeg_encode_rgb(width: u32, height: u32, rgb: &[u8], quality: u8) -> (r: Result<Vec<u8>, String>)
    requires
        rgb@.len() == 3 * width * height,
    ensures
        match r {
            Ok(bytes) => jpeg_of_rgb(width, height, rgb@, quality) == Ok::<Seq<u8>, Seq<char>>(bytes@),
            Err(text) => jpeg_of_rgb(width, height, rgb@, quality) == Err::<Seq<u8>, Seq<char>>(text@),
        },
{
    let mut buf: Vec<u8> = Vec::new();
    let written = image::codecs::jpeg::JpegEncoder::new_with_quality(&mut buf, quality)
        .encode(rgb, width, height, image::ExtendedColorType::Rgb8);
    written.map(|_| buf).map_err(|e| format!("{}", e))
}

/// The RGB8 bytes of an RGBA8 image: each pixel's alpha byte left out.
pub open spec fn drop_alpha(rgba: Seq<u8>) -> Seq<u8> {
    Seq::new((rgba.len() / 4) * 3, |i: int| rgba[4 * (i / 3) + i % 3])
}

/// The message of a JPEG encoding refused because the image's RGBA8 byte
/// count does not fit in a `usize`.
pub open spec fn too_large_to_encode() -> Seq<char> {
    "image too large to encode"@
}

/// What `encode_jpeg` makes of `img`: the JPEG, of quality `JPEG_QUALITY`,
/// of the colours of its RGBA8 conversion (alpha left out, as the `image`
/// crate does when it writes an RGBA8 image as JPEG), or the encoder's
/// message.
pub open spec fn jpeg_of_image(img: DynamicImage) -> Result<Seq<u8>, Seq<char>> {
    match rgba_view_of(img) {
        Some(v) => jpeg_of_rgb(v.0, v.1, drop_alpha(v.2), JPEG_QUALITY),
        None => Err(too_large_to_encode()),
    }
}

/// The RGB8 bytes of the RGBA8 bytes `rgba`.
fn rgb_of_rgba(rgba: &[u8]) -> (rgb: Vec<u8>)
    ensures
        rgb@ == drop_alpha(rgba@),
        rgb@.len() == (rgba@.len() / 4) * 3,
        forall|p: int, c: int|
            0 <= p < rgba@.len() / 4 && 0 <= c < 3 ==> #[trigger] rgb@[3 * p + c] == rgba@[4 * p + c],
{
    let len = rgba.len();
    let n = len / 4;
    let mut rgb: Vec<u8> = Vec::new();
    let mut k: usize = 0;
    while k < n
        invariant
            len == rgba@.len(),
            n == len / 4,
            k <= n,
            rgb@.len() == 3 * k,
            forall|i: int| 0 <= i < 3 * k ==> #[trigger] rgb@[i] == rgba@[4 * (i / 3) + i % 3],
        decreases n - k,
    {
        assert(4 * k + 3 < rgba@.len());
        rgb.push(rgba[4 * k]);
        rgb.push(rgba[4 * k + 1]);
        rgb.push(rgba[4 * k + 2]);
        assert forall|i: int| 0 <= i < 3 * (k + 1) implies #[trigger] rgb@[i] == rgba@[4 * (i / 3) + i % 3] by {
            if i >= 3 * k {
                assert(i / 3 == k as int && i % 3 == i - 3 * k);
            }
        }
        k = k + 1;
    }
    assert(rgb@ =~= drop_alpha(rgba@));
    proof {
        assert forall|p: int, c: int| 0 <= p < rgba@.len() / 4 && 0 <= c < 3 implies #[trigger] rgb@[3
            * p + c] == rgba@[4 * p + c] by {
            law_drop_alpha_keeps_colour_channels(rgba@, p, c);
        }
    }
    rgb
}

/// Leaving out the alpha channel keeps every pixel's colour channels, in
/// order and at their pixel: channel `c` (red, green or blue) of pixel `p`
/// of the RGB8 bytes is channel `c` of pixel `p` of the RGBA8 bytes, and
/// there are three bytes for each whole RGBA8 pixel.
pub proof fn law_drop_alpha_keeps_colour_channels(rgba: Seq<u8>, p: int, c: int)
    requires
        0 <= p < rgba.len() / 4,
        0 <= c < 3,
    ensures
        drop_alpha(rgba).len() == (rgba.len() / 4) * 3,
        drop_alpha(rgba)[3 * p + c] == rgba[4 * p + c],
{
    assert((3 * p + c) / 3 == p && (3 * p + c) % 3 == c) by (nonlinear_arith)
        requires
            0 <= c < 3,
            0 <= p,
    ;
    assert(3 * p + c < (rgba.len() / 4) * 3) by (nonlinear_arith)
        requires
            0 <= c < 3,
            0 <= p < rgba.len() / 4,
    ;
}

/// Decoding a body is guessing its format from its leading bytes and then
/// decoding it as that format: it succeeds exactly when both steps do, with
/// the decoder's image, and otherwise fails with the failing step's message.
/// Nothing else about the body (its length, say) enters.
pub proof fn law_decode_is_guess_then_decode(bytes: Seq<u8>)
    ensures
        guessed_format(bytes) is Err ==> decode_outcome(bytes) == Err::<DynamicImage, Seq<char>>(
            guessed_format(bytes)->Err_0,
        ),
        guessed_format(bytes) is Ok ==> decode_outcome(bytes) == decoded_as(
            bytes,
            guessed_format(bytes)->Ok_0,
        ),
{
}

/// The path parameters of a resize request: the address of the image to
/// fetch, and the width and height to resize it to.
pub struct ResizeParams {
    pub uri: String,
    pub width: u32,
    pub height: u32,
}

impl ResizeParams {
    /// Reads the raw path segments `{uri}`, `{w}` and `{h}`: the address is
    /// percent-decoded (invalid UTF-8 replaced), and the sizes are read as
    /// `str::parse::<u32>` reads them. `None` where a size does not parse.
    pub fn from_path(uri: &str, w: &str, h: &str) -> (r: Option<ResizeParams>)
        ensures
            r is Some <==> parsed_u32(w@) is Some && parsed_u32(h@) is Some,
            r matches Some(p) ==> {
                &&& p.uri@ == percent_decoded(uri@)
                &&& Some(p.width) == parsed_u32(w@)
                &&& Some(p.height) == parsed_u32(h@)
            },
    {
        let uri = percent_decode_lossy(uri);
        let width = match parse_u32(w) {
            Some(v) => v,
            None => return None,
        };
        let height = match parse_u32(h) {
            Some(v) => v,
            None => return None,
        };
        Some(ResizeParams { uri, width, height })
    }
}

/// The reply of the service to a resize request.
pub enum Reply {
    /// `200 OK`: the resized image, with the content type of the fetched one.
    Image { content_type: String, body: Vec<u8> },
    /// `400 Bad Request`: the fetched body is not an image; the text says why.
    BadRequest { message: String },
    /// `500 Internal Server Error`: resizing or encoding failed; the text says why.
    InternalServerError { message: String },
}

impl Reply {
    /// The HTTP status code of the reply.
    pub open spec fn spec_status(self) -> u16 {
        match self {
            Reply::Image { .. } => 200,
            Reply::BadRequest { .. } => 400,
            Reply::InternalServerError { .. } => 500,
        }
    }

    /// The HTTP status code of the reply.
    pub fn status(&self) -> (s: u16)
        ensures
            s == self.spec_status(),
    {
        match self {
            Reply::Image { .. } => 200,
            Reply::BadRequest { .. } => 400,
            Reply::InternalServerError { .. } => 500,
        }
    }
}

/// Decodes the fetched body. Where the decoder refuses it, the request is
/// answered `400 Bad Request` with the decoder's message, and goes no
/// further.
pub fn decode_upload(body: &[u8]) -> (r: Result<DynamicImage, Reply>)
    ensures
        match decode_outcome(body@) {
            Ok(img) => r == Ok::<DynamicImage, Reply>(img),
            Err(text) => r matches Err(Reply::BadRequest { message }) && message@ == text,
        },
        match guessed_format(body@) {
            Ok(format) => match decoded_as(body@, format) {
                Ok(img) => r == Ok::<DynamicImage, Reply>(img),
                Err(text) => r matches Err(Reply::BadRequest { message }) && message@ == text,
            },
            Err(text) => r matches Err(Reply::BadRequest { message }) && message@ == text,
        },
{
    let format = match guess_format(body) {
        Ok(format) => format,
        Err(message) => return Err(Reply::BadRequest { message }),
    };
    match load_with_format(body, format) {
        Ok(img) => Ok(img),
        Err(message) => Err(Reply::BadRequest { message }),
    }
}

/// Encodes the resized image as a JPEG of quality `JPEG_QUALITY`, from the
/// colours of its RGBA8 conversion (the resizer's images are RGBA8 already);
/// on failure, the encoder's message.
pub fn encode_jpeg(img: &DynamicImage) -> (r: Result<Vec<u8>, String>)
    ensures
        match jpeg_of_image(*img) {
            Ok(bytes) => r matches Ok(b) && b@ == bytes,
            Err(text) => r matches Err(m) && m@ == text,
        },
{
    match Rgba8Image::from_dynamic(img) {
        Some(rgba) => {
            let (width, height) = rgba.dimensions();
            let pixels = rgba.pixels();
            let rgb = rgb_of_rgba(pixels);
            assert(rgb@.len() == 3 * width * height) by (nonlinear_arith)
                requires
                    pixels@.len() == 4 * width * height,
                    rgb@.len() == (pixels@.len() / 4) * 3,
            ;
            jpeg_encode_rgb(width, height, rgb.as_slice(), JPEG_QUALITY)
        },
        None => Err(String::from_str("image too large to encode")),
    }
}

/// The reply once the image is encoded: the JPEG bytes with the content
/// type of the fetched image, or `500` with the encoder's message.
pub fn reply_for_encoding(content_type: String, encoded: Result<Vec<u8>, String>) -> (r: Reply)
    ensures
        match encoded {
            Ok(body) => r == (Reply::Image { content_type, body }),
            Err(message) => r == (Reply::InternalServerError { message }),
        },
{
    match encoded {
        Ok(body) => Reply::Image { content_type, body },
        Err(message) => Reply::InternalServerError { message },
    }
}

/// The reply once the resizer has answered: where it failed (its mailbox
/// was unreachable, or the device failed), `500` with that message;
/// otherwise the image encoded as JPEG, sent with the content type of the
/// fetched image, or `500` with the encoder's message.
pub fn reply_for_resized(content_type: String, resized: Result<DynamicImage, String>) -> (r: Reply)
    ensures
        match resized {
            Ok(img) => match jpeg_of_image(img) {
                Ok(bytes) => r matches Reply::Image { content_type: ct, body } && ct == content_type
                    && body@ == bytes,
                Err(text) => r matches Reply::InternalServerError { message } && message@ == text,
            },
            Err(message) => r == (Reply::InternalServerError { message }),
        },
{
    match resized {
        Ok(img) => reply_for_encoding(content_type, encode_jpeg(&img)),
        Err(message) => Reply::InternalServerError { message },
    }
}

/// Only a successful reply has status 200, and only it carries an image;
/// every refusal is a client error (400) or a server error (500).
pub proof fn law_only_success_carries_an_image(r: Reply)
    ensures
        r.spec_status() == 200 <==> r is Image,
        r.spec_status() == 400 <==> r is BadRequest,
        r.spec_status() == 500 <==> r is InternalServerError,
{
}

} // verus!
