//! The adaptive image transcoder: metadata stripping, a dimension cap with
//! aspect ratio kept, a descending-quality search against a byte budget, and
//! a final square-root downscale pass. Decoding and re-encoding are the image
//! crate's work behind named results; the search and the scale arithmetic are
//! verified.

use vstd::prelude::*;
use vstd::slice::slice_to_vec;

verus! {

/// The image formats the transcoder tells apart.
#[derive(Debug, Clone, Copy, PartialEq, Eq, Structural)]
pub enum ImageKind {
    Jpeg,
    Png,
    Gif,
    WebP,
    Other,
}

/// What a decode reveals about an image: its pixel dimensions and format.
#[derive(Debug, Clone, Copy, PartialEq, Eq, Structural)]
pub struct ImageInfo {
    pub width: u32,
    pub height: u32,
    pub kind: ImageKind,
}

/// Why a transcode failed: the input was not a recognizable image, or a
/// re-encode did not go through.
#[derive(Debug, Clone, Copy, PartialEq, Eq, Structural)]
pub enum TranscodeError {
    DecodeError,
    EncodeError,
}

impl TranscodeError {
    /// A short description of the failure.
    pub fn message(&self) -> (r: String)
        ensures
            *self == TranscodeError::DecodeError ==> r@ == ("unrecognized image data")@,
            *self == TranscodeError::EncodeError ==> r@ == ("image re-encoding failed")@,
    {
        match self {
            TranscodeError::DecodeError => <String as vstd::string::StringExecFns>::from_str("unrecognized image data"),
            TranscodeError::EncodeError => <String as vstd::string::StringExecFns>::from_str("image re-encoding failed"),
        }
    }
}

/// Whether the image crate can decode the byte string, by name.
pub uninterp spec fn image_decodes(bytes: Seq<u8>) -> bool;

/// The decoded width, by name.
pub uninterp spec fn image_width_of(bytes: Seq<u8>) -> u32;

/// The decoded height, by name.
pub uninterp spec fn image_height_of(bytes: Seq<u8>) -> u32;

/// The detected format, by name.
pub uninterp spec fn image_kind_of(bytes: Seq<u8>) -> ImageKind;

/// The JPEG encoding of the decoded image, resampled to the given dimensions
/// at the given quality, by name.
pub uninterp spec fn jpeg_scaled_of(bytes: Seq<u8>, width: u32, height: u32, quality: u8) -> Seq<
    u8,
>;

/// The re-encoding of the decoded image in its own format, by name.
pub uninterp spec fn reencoded_of(bytes: Seq<u8>) -> Seq<u8>;

/// The re-encoding of the decoded image in its own format, resampled to the
/// given dimensions, by name.
pub uninterp spec fn reencoded_scaled_of(bytes: Seq<u8>, width: u32, height: u32) -> Seq<u8>;

/// What format detection alone (the magic bytes) makes of the byte string,
/// by name.
pub uninterp spec fn guessed_format_of(bytes: Seq<u8>) -> Option<ImageKind>;

/// Whether the JPEG encoder goes through on the decoded image at the given
/// dimensions and quality, by name: the encoders are deterministic, so
/// success is a function of the arguments alone.
pub uninterp spec fn jpeg_encode_ok(bytes: Seq<u8>, width: u32, height: u32, quality: u8) -> bool;

/// Whether the own-format re-encode goes through, by name.
pub uninterp spec fn reencode_ok(bytes: Seq<u8>) -> bool;

/// Whether the own-format re-encode at the given dimensions goes through, by
/// name.
pub uninterp spec fn reencode_scaled_ok(bytes: Seq<u8>, width: u32, height: u32) -> bool;

/// Relies on image::guess_format, image::load_from_memory and
/// DynamicImage::dimensions: format detection and decoding succeed on exactly
/// the byte strings the crate accepts, and dimensions and format are
/// functions of the bytes alone.
#[verifier::external_body]
fn probe_image(bytes: &[u8]) -> (r: Option<ImageInfo>)
    ensures
        r is Some <==> image_decodes(bytes@),
        r matches Some(info) ==> info.width == image_width_of(bytes@) && info.height
            == image_height_of(bytes@) && info.kind == image_kind_of(bytes@),
        r is Some ==> guessed_format_of(bytes@) == Some(image_kind_of(bytes@)),
{
    let format = image::guess_format(bytes).ok()?;
    let img = image::load_from_memory(bytes).ok()?;
    let (width, height) = image::GenericImageView::dimensions(&img);
    let kind = match format {
        image::ImageFormat::Jpeg => ImageKind::Jpeg,
        image::ImageFormat::Png => ImageKind::Png,
        image::ImageFormat::Gif => ImageKind::Gif,
        image::ImageFormat::WebP => ImageKind::WebP,
        _ => ImageKind::Other,
    };
    Some(ImageInfo { width, height, kind })
}

/// Relies on image::guess_format: detection from the magic bytes alone, a
/// function of the bytes.
#[verifier::external_body]
fn guess_kind(bytes: &[u8]) -> (r: Option<ImageKind>)
    ensures
        r == guessed_format_of(bytes@),
{
    match image::guess_format(bytes) {
        Ok(image::ImageFormat::Jpeg) => Some(ImageKind::Jpeg),
        Ok(image::ImageFormat::Png) => Some(ImageKind::Png),
        Ok(image::ImageFormat::Gif) => Some(ImageKind::Gif),
        Ok(image::ImageFormat::WebP) => Some(ImageKind::WebP),
        Ok(_) => Some(ImageKind::Other),
        Err(_) => None,
    }
}

/// Relies on image::load_from_memory, DynamicImage::resize_exact with the
/// Lanczos3 filter, and the crate's JPEG encoder with an explicit quality:
/// on a fixed input both the output and whether encoding goes through are
/// functions of bytes, dimensions and quality alone.
#[verifier::external_body]
fn encode_jpeg_scaled(bytes: &[u8], width: u32, height: u32, quality: u8) -> (r: Option<Vec<u8>>)
    requires
        image_decodes(bytes@),
        1 <= width <= 65535,
        1 <= height <= 65535,
        1 <= quality <= 100,
    ensures
        r is Some <==> jpeg_encode_ok(bytes@, width, height, quality),
        r matches Some(out) ==> out@ == jpeg_scaled_of(bytes@, width, height, quality),
{
    let img = image::load_from_memory(bytes).ok()?;
    let resized = img.resize_exact(width, height, image::imageops::FilterType::Lanczos3);
    let mut out: Vec<u8> = Vec::new();
    let mut cursor = std::io::Cursor::new(&mut out);
    let mut encoder = image::codecs::jpeg::JpegEncoder::new_with_quality(&mut cursor, quality);
    encoder.encode_image(&resized).ok()?;
    Some(out)
}

/// Relies on image::load_from_memory, image::guess_format and
/// DynamicImage::write_to: the image re-encoded in its own format; the
/// output and whether encoding goes through are functions of the bytes
/// alone.
#[verifier::external_body]
fn reencode(bytes: &[u8]) -> (r: Option<Vec<u8>>)
    requires
        image_decodes(bytes@),
    ensures
        r is Some <==> reencode_ok(bytes@),
        r matches Some(out) ==> out@ == reencoded_of(bytes@),
{
    let format = image::guess_format(bytes).ok()?;
    let img = image::load_from_memory(bytes).ok()?;
    let mut out: Vec<u8> = Vec::new();
    let mut cursor = std::io::Cursor::new(&mut out);
    img.write_to(&mut cursor, format).ok()?;
    Some(out)
}

/// Relies on image::load_from_memory, image::guess_format,
/// DynamicImage::resize_exact (Lanczos3) and DynamicImage::write_to: the
/// image resampled and re-encoded in its own format; the output and whether
/// encoding goes through are functions of bytes and dimensions alone.
#[verifier::external_body]
fn reencode_scaled(bytes: &[u8], width: u32, height: u32) -> (r: Option<Vec<u8>>)
    requires
        image_decodes(bytes@),
        1 <= width,
        1 <= height,
    ensures
        r is Some <==> reencode_scaled_ok(bytes@, width, height),
        r matches Some(out) ==> out@ == reencoded_scaled_of(bytes@, width, height),
{
    let format = image::guess_format(bytes).ok()?;
    let img = image::load_from_memory(bytes).ok()?;
    let resized = img.resize_exact(width, height, image::imageops::FilterType::Lanczos3);
    let mut out: Vec<u8> = Vec::new();
    let mut cursor = std::io::Cursor::new(&mut out);
    resized.write_to(&mut cursor, format).ok()?;
    Some(out)
}

/// The MIME type for a detected format.
pub open spec fn mime_of_kind(k: ImageKind) -> Seq<char> {
    match k {
        ImageKind::Jpeg => ("image/jpeg")@,
        ImageKind::Png => ("image/png")@,
        ImageKind::Gif => ("image/gif")@,
        ImageKind::WebP => ("image/webp")@,
        ImageKind::Other => ("application/octet-stream")@,
    }
}

/// The MIME type of an image, from format detection on the magic bytes
/// alone: it errs exactly where no format is recognized.
pub fn get_mime_type(bytes: &[u8]) -> (r: Result<String, TranscodeError>)
    ensures
        r is Ok <==> guessed_format_of(bytes@) is Some,
        r matches Ok(m) ==> m@ == mime_of_kind(guessed_format_of(bytes@)->0),
        r is Err ==> r == Err::<String, TranscodeError>(TranscodeError::DecodeError),
{
    let kind = match guess_kind(bytes) {
        Some(k) => k,
        None => {
            return Err(TranscodeError::DecodeError);
        },
    };
    let m = match kind {
        ImageKind::Jpeg => "image/jpeg",
        ImageKind::Png => "image/png",
        ImageKind::Gif => "image/gif",
        ImageKind::WebP => "image/webp",
        ImageKind::Other => "application/octet-stream",
    };
    Ok(<String as vstd::string::StringExecFns>::from_str(m))
}

/// Strips embedded metadata by decoding and re-encoding in the same format.
/// It succeeds exactly where the image decodes and its re-encode goes
/// through, and the two errors name which of the two failed.
pub fn strip_exif(image_bytes: &[u8]) -> (r: Result<Vec<u8>, TranscodeError>)
    ensures
        r matches Ok(out) ==> out@ == reencoded_of(image_bytes@),
        r is Ok <==> image_decodes(image_bytes@) && reencode_ok(image_bytes@),
        (r == Err::<Vec<u8>, TranscodeError>(TranscodeError::DecodeError)) <==> !image_decodes(
            image_bytes@,
        ),
{
    if probe_image(image_bytes).is_none() {
        return Err(TranscodeError::DecodeError);
    }
    match reencode(image_bytes) {
        Some(out) => Ok(out),
        None => Err(TranscodeError::EncodeError),
    }
}

/// The floor of the square root: `r` with `r * r <= x < (r + 1) * (r + 1)`.
fn isqrt_u128(x: u128) -> (r: u128)
    ensures
        r * r <= x,
        x < (r + 1) * (r + 1),
{
    let mut lo: u128 = 0;
    let mut hi: u128 = 0x1_0000_0000_0000_0000;
    proof {
        assert(x < hi * hi) by (nonlinear_arith)
            requires
                hi == 0x1_0000_0000_0000_0000u128,
                x <= u128::MAX,
        ;
    }
    while hi - lo > 1
        invariant
            lo < hi,
            hi <= 0x1_0000_0000_0000_0000,
            lo * lo <= x,
            x < hi * hi,
        decreases hi - lo,
    {
        let mid: u128 = lo + (hi - lo) / 2;
        proof {
            assert(mid * mid <= u128::MAX) by (nonlinear_arith)
                requires
                    mid < 0x1_0000_0000_0000_0000u128,
            ;
        }
        if mid * mid <= x {
            lo = mid;
        } else {
            hi = mid;
        }
    }
    lo
}

/// The dimensions that fit an image into a square cap, aspect ratio kept:
/// the longer side becomes the cap, the shorter side is scaled by the same
/// ratio, and neither drops below one pixel.
pub open spec fn fit_dims_spec(w0: u32, h0: u32, m: u32) -> (u32, u32)
    recommends
        w0 >= 1,
        h0 >= 1,
{
    if w0 >= h0 {
        let h = (h0 as int) * (m as int) / (w0 as int);
        (if m >= 1 { m } else { 1u32 }, if h >= 1 { h as u32 } else { 1u32 })
    } else {
        let w = (w0 as int) * (m as int) / (h0 as int);
        (if w >= 1 { w as u32 } else { 1u32 }, if m >= 1 { m } else { 1u32 })
    }
}

fn fit_dims(w0: u32, h0: u32, m: u32) -> (r: (u32, u32))
    requires
        1 <= w0,
        1 <= h0,
    ensures
        r == fit_dims_spec(w0, h0, m),
        1 <= r.0,
        1 <= r.1,
        r.0 <= if w0 >= h0 { if m >= 1 { m } else { 1u32 } } else { u32::MAX },
{
    if w0 >= h0 {
        proof {
            assert((h0 as int) * (m as int) < 0x10000000000000000) by (nonlinear_arith)
                requires
                    h0 as int <= 0xffffffff,
                    m as int <= 0xffffffff,
            ;
        }
        let h128: u64 = (h0 as u64) * (m as u64) / (w0 as u64);
        proof {
            assert((h0 as int) * (m as int) / (w0 as int) <= m as int) by (nonlinear_arith)
                requires
                    1 <= w0 as int,
                    1 <= h0 as int,
                    h0 as int <= w0 as int,
                    0 <= m as int,
            ;
        }
        let h: u32 = h128 as u32;
        (if m >= 1 { m } else { 1 }, if h >= 1 { h } else { 1 })
    } else {
        proof {
            assert((w0 as int) * (m as int) < 0x10000000000000000) by (nonlinear_arith)
                requires
                    w0 as int <= 0xffffffff,
                    m as int <= 0xffffffff,
            ;
        }
        let w128: u64 = (w0 as u64) * (m as u64) / (h0 as u64);
        proof {
            assert((w0 as int) * (m as int) / (h0 as int) <= m as int) by (nonlinear_arith)
                requires
                    1 <= h0 as int,
                    1 <= w0 as int,
                    w0 as int <= h0 as int,
                    0 <= m as int,
            ;
        }
        let w: u32 = w128 as u32;
        (if w >= 1 { w } else { 1 }, if m >= 1 { m } else { 1 })
    }
}

/// The dimensions the transcoder encodes at: the decoded dimensions, capped
/// where a cap is set and exceeded.
pub open spec fn target_dims(bytes: Seq<u8>, max_dimension: Option<u32>) -> (u32, u32) {
    let w0 = image_width_of(bytes);
    let h0 = image_height_of(bytes);
    match max_dimension {
        Some(m) => if w0 > m || h0 > m {
            fit_dims_spec(w0, h0, m)
        } else {
            (w0, h0)
        },
        None => (w0, h0),
    }
}

/// The encoding the quality search looks at for one quality step: a JPEG at
/// that quality, or the format's own re-encoding (which has no quality knob).
pub open spec fn quality_encoding(bytes: Seq<u8>, max_dimension: Option<u32>, q: u8) -> Seq<u8> {
    let dims = target_dims(bytes, max_dimension);
    if image_kind_of(bytes) == ImageKind::Jpeg {
        jpeg_scaled_of(bytes, dims.0, dims.1, q)
    } else if dims == (image_width_of(bytes), image_height_of(bytes)) {
        reencoded_of(bytes)
    } else {
        reencoded_scaled_of(bytes, dims.0, dims.1)
    }
}

/// The starting (unconstrained) quality of the search.
pub const START_QUALITY: u8 = 95;

/// The quality floor of the search.
pub const FLOOR_QUALITY: u8 = 50;

/// The fixed quality of the final downscale pass.
pub const FALLBACK_QUALITY: u8 = 85;

/// The final downscale pass: the image resampled to the given dimensions, as
/// a JPEG at the fixed moderate quality or in its own format.
pub open spec fn scaled_fallback(bytes: Seq<u8>, w: u32, h: u32) -> Seq<u8> {
    if image_kind_of(bytes) == ImageKind::Jpeg {
        jpeg_scaled_of(bytes, w, h, FALLBACK_QUALITY)
    } else {
        reencoded_scaled_of(bytes, w, h)
    }
}

/// The shapes a compressed result can take: one of the quality steps at the
/// capped dimensions, or a downscale pass that stays within them.
pub open spec fn compressed_post(bytes: Seq<u8>, max_dimension: Option<u32>, out: Seq<u8>) -> bool {
    ||| (exists|q: u8|
        FLOOR_QUALITY <= q <= START_QUALITY && out == #[trigger] quality_encoding(
            bytes,
            max_dimension,
            q,
        ))
    ||| (exists|w: u32, h: u32|
        1 <= w <= target_dims(bytes, max_dimension).0 && 1 <= h <= target_dims(
            bytes,
            max_dimension,
        ).1 && out == #[trigger] scaled_fallback(bytes, w, h))
}

/// The largest integer whose square is at most `x`.
pub open spec fn isqrt_spec(x: int) -> int
    recommends
        x >= 0,
    decreases x,
{
    if x <= 0 {
        0
    } else {
        let p = isqrt_spec(x - 1);
        if (p + 1) * (p + 1) <= x {
            p + 1
        } else {
            p
        }
    }
}

proof fn lemma_isqrt_spec_bounds(x: int)
    requires
        x >= 0,
    ensures
        isqrt_spec(x) >= 0,
        isqrt_spec(x) * isqrt_spec(x) <= x,
        x < (isqrt_spec(x) + 1) * (isqrt_spec(x) + 1),
    decreases x,
{
    if x > 0 {
        lemma_isqrt_spec_bounds(x - 1);
        let p = isqrt_spec(x - 1);
        if (p + 1) * (p + 1) <= x {
            assert(x < (p + 2) * (p + 2)) by (nonlinear_arith)
                requires
                    x - 1 < (p + 1) * (p + 1),
                    p >= 0,
            ;
        }
    }
}

proof fn lemma_isqrt_unique(x: int, r: int)
    requires
        x >= 0,
        r >= 0,
        r * r <= x,
        x < (r + 1) * (r + 1),
    ensures
        r == isqrt_spec(x),
{
    lemma_isqrt_spec_bounds(x);
    let s = isqrt_spec(x);
    if r < s {
        assert((r + 1) * (r + 1) <= s * s) by (nonlinear_arith)
            requires
                0 <= r,
                r + 1 <= s,
        ;
        assert(false);
    }
    if s < r {
        assert((s + 1) * (s + 1) <= r * r) by (nonlinear_arith)
            requires
                0 <= s,
                s + 1 <= r,
        ;
        assert(false);
    }
}

/// The quality the descending search settles on: the first step at or below
/// `q` whose encoding fits the budget, or the floor.
pub open spec fn search_quality(
    bytes: Seq<u8>,
    max_dimension: Option<u32>,
    max_size: usize,
    q: u8,
) -> u8
    recommends
        FLOOR_QUALITY <= q,
    decreases q,
{
    if q <= FLOOR_QUALITY || quality_encoding(bytes, max_dimension, q).len() <= max_size {
        q
    } else {
        search_quality(bytes, max_dimension, max_size, (q - 5) as u8)
    }
}

proof fn lemma_search_floor(bytes: Seq<u8>, max_dimension: Option<u32>, max_size: usize, q: u8)
    requires
        FLOOR_QUALITY <= q,
        (q - FLOOR_QUALITY) % 5 == 0,
        forall|q2: u8|
            FLOOR_QUALITY <= q2 <= q && q2 % 5 == 0 ==> #[trigger] quality_encoding(
                bytes,
                max_dimension,
                q2,
            ).len() > max_size,
    ensures
        search_quality(bytes, max_dimension, max_size, q) == FLOOR_QUALITY,
    decreases q,
{
    if q > FLOOR_QUALITY {
        assert(quality_encoding(bytes, max_dimension, q).len() > max_size);
        lemma_search_floor(bytes, max_dimension, max_size, (q - 5) as u8);
    }
}

/// The dimensions of the final downscale pass: the capped dimensions scaled
/// by the square root of budget over settled size, and at least one pixel
/// each.
pub open spec fn fallback_dims(bytes: Seq<u8>, max_dimension: Option<u32>, max_size: usize) -> (
    u32,
    u32,
) {
    let dims = target_dims(bytes, max_dimension);
    let size = quality_encoding(
        bytes,
        max_dimension,
        search_quality(bytes, max_dimension, max_size, START_QUALITY),
    ).len() as int;
    let w = isqrt_spec((dims.0 as int) * (dims.0 as int) * (max_size as int) / size);
    let h = isqrt_spec((dims.1 as int) * (dims.1 as int) * (max_size as int) / size);
    ((if w < 1 {
        1int
    } else {
        w
    }) as u32, (if h < 1 {
        1int
    } else {
        h
    }) as u32)
}

/// The byte string `compress_image` returns when it returns one: the first
/// encoding of the search that fits the budget; failing all steps, the
/// downscale pass; and where even that pass grew, the unconstrained
/// encoding. Two calls on equal arguments return equal bytes.
pub open spec fn compress_result_spec(
    bytes: Seq<u8>,
    max_dimension: Option<u32>,
    max_size: usize,
) -> Seq<u8> {
    let first = quality_encoding(bytes, max_dimension, START_QUALITY);
    if first.len() <= max_size {
        first
    } else {
        let chosen = quality_encoding(
            bytes,
            max_dimension,
            search_quality(bytes, max_dimension, max_size, START_QUALITY),
        );
        if chosen.len() <= max_size {
            chosen
        } else {
            let nd = fallback_dims(bytes, max_dimension, max_size);
            let fall = scaled_fallback(bytes, nd.0, nd.1);
            if fall.len() <= max_size {
                fall
            } else if fall.len() <= first.len() {
                fall
            } else {
                first
            }
        }
    }
}

/// Whether the encode the algorithm needs first goes through: the
/// starting-quality JPEG at the capped dimensions (which must be within the
/// format's limit), or the own-format re-encode, scaled where capped.
pub open spec fn first_encode_ok(bytes: Seq<u8>, max_dimension: Option<u32>) -> bool {
    let dims = target_dims(bytes, max_dimension);
    if image_kind_of(bytes) == ImageKind::Jpeg {
        dims.0 <= 65535 && dims.1 <= 65535 && jpeg_encode_ok(bytes, dims.0, dims.1, START_QUALITY)
    } else if dims == (image_width_of(bytes), image_height_of(bytes)) {
        reencode_ok(bytes)
    } else {
        reencode_scaled_ok(bytes, dims.0, dims.1)
    }
}

/// Every quality step of the search exceeds the budget.
pub open spec fn all_quality_over(bytes: Seq<u8>, max_size: usize, max_dimension: Option<u32>) -> bool {
    forall|q: u8|
        FLOOR_QUALITY <= q <= START_QUALITY && q % 5 == 0 ==> #[trigger] quality_encoding(
            bytes,
            max_dimension,
            q,
        ).len() > max_size
}

/// Shrinks an image under a byte budget: cap the dimensions where asked,
/// walk the JPEG quality down to the floor, and downscale once by the square
/// root of the remaining ratio. The returned bytes are pinned by
/// `compress_result_spec`, a function of the arguments alone; the result is
/// over budget only where every quality step was, and is then never larger
/// than the unconstrained re-encoding. A decode failure (or an image with a
/// zero dimension) is exactly the decode error; success is owed whenever the
/// first encode goes through under budget.
pub fn compress_image(image_bytes: &[u8], max_size_bytes: usize, max_dimension: Option<u32>) -> (r:
    Result<Vec<u8>, TranscodeError>)
    ensures
        r matches Ok(out) ==> {
            &&& image_decodes(image_bytes@)
            &&& out@ == compress_result_spec(image_bytes@, max_dimension, max_size_bytes)
            &&& compressed_post(image_bytes@, max_dimension, out@)
            &&& (out@.len() > max_size_bytes ==> all_quality_over(
                image_bytes@,
                max_size_bytes,
                max_dimension,
            ) && out@.len() <= quality_encoding(
                image_bytes@,
                max_dimension,
                START_QUALITY,
            ).len())
        },
        (r == Err::<Vec<u8>, TranscodeError>(TranscodeError::DecodeError)) <==> (!image_decodes(
            image_bytes@,
        ) || image_width_of(image_bytes@) == 0 || image_height_of(image_bytes@) == 0),
        image_decodes(image_bytes@) && image_width_of(image_bytes@) >= 1 && image_height_of(
            image_bytes@,
        ) >= 1 && !first_encode_ok(image_bytes@, max_dimension) ==> r == Err::<
            Vec<u8>,
            TranscodeError,
        >(TranscodeError::EncodeError),
        image_decodes(image_bytes@) && image_width_of(image_bytes@) >= 1 && image_height_of(
            image_bytes@,
        ) >= 1 && first_encode_ok(image_bytes@, max_dimension) && quality_encoding(
            image_bytes@,
            max_dimension,
            START_QUALITY,
        ).len() <= max_size_bytes ==> r is Ok,
{
    let info = match probe_image(image_bytes) {
        Some(i) => i,
        None => {
            return Err(TranscodeError::DecodeError);
        },
    };
    if info.width < 1 || info.height < 1 {
        return Err(TranscodeError::DecodeError);
    }
    // Cap the dimensions where a cap is set and exceeded.
    let dims: (u32, u32) = match max_dimension {
        Some(m) => {
            if info.width > m || info.height > m {
                fit_dims(info.width, info.height, m)
            } else {
                (info.width, info.height)
            }
        },
        None => (info.width, info.height),
    };
    let tw = dims.0;
    let th = dims.1;
    proof {
        assert((tw, th) == target_dims(image_bytes@, max_dimension));
        assert(1 <= tw && 1 <= th);
    }
    let is_jpeg = match info.kind {
        ImageKind::Jpeg => true,
        _ => false,
    };
    // The unconstrained encoding: the starting quality, at the capped
    // dimensions.
    let first: Vec<u8>;
    if is_jpeg {
        if tw > 65535 || th > 65535 {
            return Err(TranscodeError::EncodeError);
        }
        first = match encode_jpeg_scaled(image_bytes, tw, th, START_QUALITY) {
            Some(v) => v,
            None => {
                return Err(TranscodeError::EncodeError);
            },
        };
    } else {
        if tw == info.width && th == info.height {
            first = match reencode(image_bytes) {
                Some(v) => v,
                None => {
                    return Err(TranscodeError::EncodeError);
                },
            };
        } else {
            first = match reencode_scaled(image_bytes, tw, th) {
                Some(v) => v,
                None => {
                    return Err(TranscodeError::EncodeError);
                },
            };
        }
    }
    proof {
        assert(first@ == quality_encoding(image_bytes@, max_dimension, START_QUALITY));
        assert(first_encode_ok(image_bytes@, max_dimension));
    }
    if first.len() <= max_size_bytes {
        proof {
            assert(compressed_post(image_bytes@, max_dimension, first@));
            assert(first@ == compress_result_spec(image_bytes@, max_dimension, max_size_bytes));
        }
        return Ok(first);
    }
    // Walk the quality down to the floor; the first encoding under budget
    // wins.
    let first_len = first.len();
    let mut last = first;
    let ghost first_view = last@;
    let mut q: u8 = START_QUALITY;
    if is_jpeg {
        while q > FLOOR_QUALITY
            invariant
                image_decodes(image_bytes@),
                is_jpeg ==> image_kind_of(image_bytes@) == ImageKind::Jpeg,
                is_jpeg,
                1 <= tw <= 65535,
                1 <= th <= 65535,
                (tw, th) == target_dims(image_bytes@, max_dimension),
                FLOOR_QUALITY <= q <= START_QUALITY,
                q % 5 == 0,
                image_width_of(image_bytes@) >= 1,
                image_height_of(image_bytes@) >= 1,
                first_encode_ok(image_bytes@, max_dimension),
                last@ == quality_encoding(image_bytes@, max_dimension, q),
                last@.len() > max_size_bytes,
                first_view == quality_encoding(image_bytes@, max_dimension, START_QUALITY),
                first_view.len() > max_size_bytes,
                first_len == first_view.len(),
                forall|q2: u8|
                    q < q2 <= START_QUALITY && q2 % 5 == 0 ==> #[trigger] quality_encoding(
                        image_bytes@,
                        max_dimension,
                        q2,
                    ).len() > max_size_bytes,
                search_quality(image_bytes@, max_dimension, max_size_bytes, START_QUALITY)
                    == search_quality(image_bytes@, max_dimension, max_size_bytes, q),
            decreases q,
        {
            let ghost q_pre = q;
            q = q - 5;
            proof {
                assert(search_quality(image_bytes@, max_dimension, max_size_bytes, q_pre)
                    == search_quality(image_bytes@, max_dimension, max_size_bytes, q));
            }
            let cand = match encode_jpeg_scaled(image_bytes, tw, th, q) {
                Some(v) => v,
                None => {
                    return Err(TranscodeError::EncodeError);
                },
            };
            if cand.len() <= max_size_bytes {
                proof {
                    assert(cand@ == quality_encoding(image_bytes@, max_dimension, q));
                    assert(compressed_post(image_bytes@, max_dimension, cand@));
                    assert(search_quality(image_bytes@, max_dimension, max_size_bytes, q) == q);
                    assert(cand@ == compress_result_spec(
                        image_bytes@,
                        max_dimension,
                        max_size_bytes,
                    ));
                }
                return Ok(cand);
            }
            last = cand;
        }
    }
    proof {
        assert(all_quality_over(image_bytes@, max_size_bytes, max_dimension)) by {
            assert forall|q2: u8| FLOOR_QUALITY <= q2 <= START_QUALITY && q2 % 5 == 0 implies #[trigger] quality_encoding(
                image_bytes@,
                max_dimension,
                q2,
            ).len() > max_size_bytes by {
                if !is_jpeg {
                    assert(quality_encoding(image_bytes@, max_dimension, q2) == quality_encoding(
                        image_bytes@,
                        max_dimension,
                        q,
                    ));
                }
            }
        }
        assert(search_quality(image_bytes@, max_dimension, max_size_bytes, START_QUALITY)
            == FLOOR_QUALITY) by {
            if !is_jpeg {
                lemma_search_floor(image_bytes@, max_dimension, max_size_bytes, START_QUALITY);
            }
        }
        assert(last@ == quality_encoding(image_bytes@, max_dimension, FLOOR_QUALITY)) by {
            if !is_jpeg {
                assert(quality_encoding(image_bytes@, max_dimension, FLOOR_QUALITY)
                    == quality_encoding(image_bytes@, max_dimension, q));
            }
        }
    }
    // Downscale once by the square root of the remaining ratio.
    let size = last.len();
    proof {
        assert((tw as int) * (tw as int) < 0x10000000000000000) by (nonlinear_arith)
            requires
                tw as int <= 0xffffffff,
        ;
        assert((tw as int) * (tw as int) * (max_size_bytes as int)
            < 0x100000000000000000000000000000000) by (nonlinear_arith)
            requires
                (tw as int) * (tw as int) < 0x10000000000000000,
                max_size_bytes as int <= 0xffffffffffffffff,
        ;
        assert((th as int) * (th as int) < 0x10000000000000000) by (nonlinear_arith)
            requires
                th as int <= 0xffffffff,
        ;
        assert((th as int) * (th as int) * (max_size_bytes as int)
            < 0x100000000000000000000000000000000) by (nonlinear_arith)
            requires
                (th as int) * (th as int) < 0x10000000000000000,
                max_size_bytes as int <= 0xffffffffffffffff,
        ;
    }
    let a: u128 = (tw as u128) * (tw as u128) * (max_size_bytes as u128);
    let b: u128 = (th as u128) * (th as u128) * (max_size_bytes as u128);
    let nw128 = isqrt_u128(a / (size as u128));
    let nh128 = isqrt_u128(b / (size as u128));
    proof {
        assert(a / (size as u128) < (tw as u128) * (tw as u128)) by (nonlinear_arith)
            requires
                a == (tw as u128) * (tw as u128) * (max_size_bytes as u128),
                (max_size_bytes as u128) < (size as u128),
                1 <= tw,
        ;
        assert(b / (size as u128) < (th as u128) * (th as u128)) by (nonlinear_arith)
            requires
                b == (th as u128) * (th as u128) * (max_size_bytes as u128),
                (max_size_bytes as u128) < (size as u128),
                1 <= th,
        ;
        assert(nw128 < tw as u128) by (nonlinear_arith)
            requires
                nw128 * nw128 <= a / (size as u128),
                a / (size as u128) < (tw as u128) * (tw as u128),
        ;
        assert(nh128 < th as u128) by (nonlinear_arith)
            requires
                nh128 * nh128 <= b / (size as u128),
                b / (size as u128) < (th as u128) * (th as u128),
        ;
    }
    let nw0: u32 = nw128 as u32;
    let nh0: u32 = nh128 as u32;
    let nw: u32 = if nw0 >= 1 {
        nw0
    } else {
        1
    };
    let nh: u32 = if nh0 >= 1 {
        nh0
    } else {
        1
    };
    proof {
        lemma_isqrt_unique((a / (size as u128)) as int, nw128 as int);
        lemma_isqrt_unique((b / (size as u128)) as int, nh128 as int);
        assert((nw, nh) == fallback_dims(image_bytes@, max_dimension, max_size_bytes));
    }
    let fall: Vec<u8>;
    if is_jpeg {
        fall = match encode_jpeg_scaled(image_bytes, nw, nh, FALLBACK_QUALITY) {
            Some(v) => v,
            None => {
                return Err(TranscodeError::EncodeError);
            },
        };
    } else {
        fall = match reencode_scaled(image_bytes, nw, nh) {
            Some(v) => v,
            None => {
                return Err(TranscodeError::EncodeError);
            },
        };
    }
    proof {
        assert(fall@ == scaled_fallback(image_bytes@, nw, nh));
        assert(compressed_post(image_bytes@, max_dimension, fall@));
    }
    if fall.len() <= max_size_bytes {
        proof {
            assert(fall@ == compress_result_spec(image_bytes@, max_dimension, max_size_bytes));
        }
        return Ok(fall);
    }
    if fall.len() <= first_len {
        proof {
            assert(fall@ == compress_result_spec(image_bytes@, max_dimension, max_size_bytes));
        }
        return Ok(fall);
    }
    // The downscale pass did not shrink the bytes below the unconstrained
    // encoding: recompute and return that encoding, so that the result never
    // grows past it.
    if is_jpeg {
        match encode_jpeg_scaled(image_bytes, tw, th, START_QUALITY) {
            Some(v) => {
                proof {
                    assert(v@ == quality_encoding(image_bytes@, max_dimension, START_QUALITY));
                    assert(compressed_post(image_bytes@, max_dimension, v@));
                    assert(v@ == compress_result_spec(image_bytes@, max_dimension, max_size_bytes));
                }
                Ok(v)
            },
            None => {
                proof {
                    assert(false);
                }
                unreached()
            },
        }
    } else if tw == info.width && th == info.height {
        match reencode(image_bytes) {
            Some(v) => {
                proof {
                    assert(v@ == quality_encoding(image_bytes@, max_dimension, START_QUALITY));
                    assert(compressed_post(image_bytes@, max_dimension, v@));
                    assert(v@ == compress_result_spec(image_bytes@, max_dimension, max_size_bytes));
                }
                Ok(v)
            },
            None => {
                proof {
                    assert(false);
                }
                unreached()
            },
        }
    } else {
        match reencode_scaled(image_bytes, tw, th) {
            Some(v) => {
                proof {
                    assert(v@ == quality_encoding(image_bytes@, max_dimension, START_QUALITY));
                    assert(compressed_post(image_bytes@, max_dimension, v@));
                    assert(v@ == compress_result_spec(image_bytes@, max_dimension, max_size_bytes));
                }
                Ok(v)
            },
            None => {
                proof {
                    assert(false);
                }
                unreached()
            },
        }
    }
}

/// What `process` promises of its result, for a given configuration: the
/// metadata-stripping re-encode first where asked, then the compression
/// search where a byte budget is set and exceeded.
/// Where the compression step answers with the decode error: a set budget is
/// exceeded by bytes that do not decode or decode to a zero dimension.
pub open spec fn compress_decode_error(mid: Seq<u8>, max_size: Option<usize>) -> bool {
    &&& max_size matches Some(m)
    &&& mid.len() > m
    &&& (!image_decodes(mid) || image_width_of(mid) == 0 || image_height_of(mid) == 0)
}

/// Where `process` answers with the decode error: the strip on an input that
/// does not decode, or the compression step on the stripped bytes.
pub open spec fn process_decode_error(p: ImageProcessor, input: Seq<u8>) -> bool {
    if p.strip_exif {
        ||| !image_decodes(input)
        ||| (reencode_ok(input) && compress_decode_error(reencoded_of(input), p.max_size))
    } else {
        compress_decode_error(input, p.max_size)
    }
}

/// The bytes `process` returns when it returns them: the input, stripped
/// where asked, and compressed where a byte budget is set and exceeded.
pub open spec fn process_result_spec(p: ImageProcessor, input: Seq<u8>) -> Seq<u8> {
    let mid = if p.strip_exif {
        reencoded_of(input)
    } else {
        input
    };
    match p.max_size {
        Some(m) => if mid.len() > m {
            compress_result_spec(mid, p.max_dimension, m)
        } else {
            mid
        },
        None => mid,
    }
}

pub open spec fn processed_post(p: ImageProcessor, input: Seq<u8>, out: Seq<u8>) -> bool {
    let mid = if p.strip_exif {
        reencoded_of(input)
    } else {
        input
    };
    &&& (p.strip_exif ==> image_decodes(input))
    &&& match p.max_size {
        Some(m) => if mid.len() > m {
            &&& image_decodes(mid)
            &&& compressed_post(mid, p.max_dimension, out)
            &&& (out.len() > m ==> all_quality_over(mid, m, p.max_dimension) && out.len()
                <= quality_encoding(mid, p.max_dimension, START_QUALITY).len())
        } else {
            out == mid
        },
        None => out == mid,
    }
}

/// A per-platform transcode configuration: an optional byte budget, an
/// optional dimension cap, and whether to strip embedded metadata.
#[derive(Debug, Clone, Copy)]
pub struct ImageProcessor {
    pub max_size: Option<usize>,
    pub max_dimension: Option<u32>,
    pub strip_exif: bool,
}

impl ImageProcessor {
    /// A configuration with no constraints.
    pub fn new() -> (r: ImageProcessor)
        ensures
            r.max_size is None,
            r.max_dimension is None,
            !r.strip_exif,
    {
        ImageProcessor { max_size: None, max_dimension: None, strip_exif: false }
    }

    /// The same configuration with a byte budget.
    pub fn with_max_size(self, size: usize) -> (r: ImageProcessor)
        ensures
            r.max_size == Some(size),
            r.max_dimension == self.max_dimension,
            r.strip_exif == self.strip_exif,
    {
        ImageProcessor { max_size: Some(size), ..self }
    }

    /// The same configuration with a dimension cap.
    pub fn with_max_dimension(self, dim: u32) -> (r: ImageProcessor)
        ensures
            r.max_dimension == Some(dim),
            r.max_size == self.max_size,
            r.strip_exif == self.strip_exif,
    {
        ImageProcessor { max_dimension: Some(dim), ..self }
    }

    /// The same configuration with metadata stripping on.
    pub fn with_exif_stripping(self) -> (r: ImageProcessor)
        ensures
            r.strip_exif,
            r.max_size == self.max_size,
            r.max_dimension == self.max_dimension,
    {
        ImageProcessor { strip_exif: true, ..self }
    }

    /// Applies the configuration to one image: strip metadata where asked,
    /// then compress where a byte budget is set and exceeded. The returned
    /// bytes are pinned by `process_result_spec`; an input already under the
    /// budget comes back unchanged (stripped where asked); the decode error
    /// comes exactly where `process_decode_error` says.
    pub fn process(&self, image_bytes: &[u8]) -> (r: Result<Vec<u8>, TranscodeError>)
        ensures
            r matches Ok(out) ==> processed_post(*self, image_bytes@, out@) && out@
                == process_result_spec(*self, image_bytes@),
            !self.strip_exif && (self.max_size is None || image_bytes@.len()
                <= self.max_size->0) ==> (r matches Ok(out) && out@ == image_bytes@),
            self.strip_exif && image_decodes(image_bytes@) && reencode_ok(image_bytes@) && (
            self.max_size is None || reencoded_of(image_bytes@).len() <= self.max_size->0) ==> (r
                matches Ok(out) && out@ == reencoded_of(image_bytes@)),
            (r == Err::<Vec<u8>, TranscodeError>(TranscodeError::DecodeError))
                <==> process_decode_error(*self, image_bytes@),
    {
        let mut bytes: Vec<u8> = slice_to_vec(image_bytes);
        if self.strip_exif {
            bytes = match strip_exif(image_bytes) {
                Ok(b) => b,
                Err(e) => {
                    return Err(e);
                },
            };
        }
        match self.max_size {
            Some(m) => {
                if bytes.len() > m {
                    match compress_image(bytes.as_slice(), m, self.max_dimension) {
                        Ok(out) => Ok(out),
                        Err(e) => Err(e),
                    }
                } else {
                    Ok(bytes)
                }
            },
            None => Ok(bytes),
        }
    }
}

impl Default for ImageProcessor {
    /// The configuration with no constraints.
    fn default() -> (r: ImageProcessor)
        ensures
            r.max_size is None,
            r.max_dimension is None,
            !r.strip_exif,
    {
        ImageProcessor::new()
    }
}

} // verus!
