use vstd::prelude::*;

use crate::pixels::{rgba_len, sample, RgbaImage};

verus! {

/// Why the primary decoder produced no image.
#[derive(Debug, Clone)]
pub enum PrimaryFailure {
    /// The decoder does not handle the format; with its message.
    Unsupported(String),
    /// Any other failure; with its message.
    Other(String),
}

/// Why a source file could not be decoded.
#[derive(Debug)]
pub enum DecodeError {
    /// The primary decoder does not handle the format, and the fallback was
    /// ruled out by a format hint.
    Unsupported(String),
    /// The primary decoder failed otherwise.
    Failed(String),
    /// Neither decoder handled the file: the primary decoder's message and the
    /// fallback decoder's error.
    FallbackFailed { unsupported: String, fallback: Box<DecodeError> },
    /// The fallback decoder's message, where it failed internally.
    Fallback(String),
    /// The fallback decoder produced a colour space other than monochrome, RGB
    /// or RGBA.
    UnsupportedColorSpace,
    /// The fallback decoder produced samples of another depth than 8 bits.
    UnsupportedBitDepth(u8),
    /// The fallback decoder reported no bit depth.
    MissingBitDepth,
    /// The fallback decoder produced no interleaved plane.
    MissingPlane,
    /// The samples do not fill an image of the reported size.
    ShapeMismatch,
}

/// Whether `a` equals the lower-case ASCII text `b` when ASCII case is ignored.
pub open spec fn same_ignoring_ascii_case(a: Seq<char>, b: Seq<char>) -> bool {
    a.len() == b.len() && forall|i: int|
        0 <= i < a.len() ==> a[i] == b[i] || ('A' <= a[i] && a[i] <= 'Z' && a[i] as u32 + 32
            == b[i] as u32)
}

/// The file extensions that the image crate maps to a format, ASCII case
/// ignored.
pub open spec fn known_image_extension(e: Seq<char>) -> bool {
    same_ignoring_ascii_case(e, "avif"@) || same_ignoring_ascii_case(e, "jpg"@)
        || same_ignoring_ascii_case(e, "jpeg"@) || same_ignoring_ascii_case(e, "jfif"@)
        || same_ignoring_ascii_case(e, "png"@) || same_ignoring_ascii_case(e, "apng"@)
        || same_ignoring_ascii_case(e, "gif"@) || same_ignoring_ascii_case(e, "webp"@)
        || same_ignoring_ascii_case(e, "tif"@) || same_ignoring_ascii_case(e, "tiff"@)
        || same_ignoring_ascii_case(e, "tga"@) || same_ignoring_ascii_case(e, "dds"@)
        || same_ignoring_ascii_case(e, "bmp"@) || same_ignoring_ascii_case(e, "ico"@)
        || same_ignoring_ascii_case(e, "hdr"@) || same_ignoring_ascii_case(e, "exr"@)
        || same_ignoring_ascii_case(e, "pbm"@) || same_ignoring_ascii_case(e, "pam"@)
        || same_ignoring_ascii_case(e, "ppm"@) || same_ignoring_ascii_case(e, "pgm"@)
        || same_ignoring_ascii_case(e, "pnm"@) || same_ignoring_ascii_case(e, "ff"@)
        || same_ignoring_ascii_case(e, "qoi"@)
}

/// The view of an optional string slice.
pub open spec fn opt_str_view(e: Option<&str>) -> Option<Seq<char>> {
    match e {
        Some(s) => Some(s@),
        None => None,
    }
}

/// Whether an optional extension is one that the image crate knows.
pub open spec fn names_known_format(e: Option<Seq<char>>) -> bool {
    match e {
        Some(x) => known_image_extension(x),
        None => false,
    }
}

/// What the image crate's decoder makes of `bytes` in the format that
/// `extension` names: the decoded width and height, or, on failure, whether it
/// failed as `Unsupported`.
pub uninterp spec fn primary_outcome(bytes: Seq<u8>, extension: Option<Seq<char>>) -> Result<
    (u32, u32),
    bool,
>;

/// The size of a decoded image, or whether decoding failed as unsupported.
pub open spec fn outcome_of(r: Result<RgbaImage, PrimaryFailure>) -> Result<(u32, u32), bool> {
    match r {
        Ok(img) => Ok((img.width, img.height)),
        Err(f) => Err(f is Unsupported),
    }
}

/// Without a format hint the decoder fails as unsupported.
pub open spec fn unsupported_without_hint(has_hint: bool, outcome: Result<(u32, u32), bool>) -> bool {
    has_hint || outcome == Err::<(u32, u32), bool>(true)
}

/// A decoded image holds four samples for each pixel.
pub open spec fn decoded_well_formed(r: Result<RgbaImage, PrimaryFailure>) -> bool {
    match r {
        Ok(img) => img.well_formed(),
        Err(_) => true,
    }
}

/// Relies on image: `ImageFormat::from_extension` (a fixed table, ASCII case
/// ignored) picks the format; `ImageReader::with_format`, or without a format
/// `ImageReader::new`, whose `decode` then fails as `Unsupported`; `decode`
/// allocates exactly the decoded size, and `DynamicImage::into_rgba8` gives
/// four samples per pixel.
#[verifier::external_body]
fn decode_with_extension(bytes: &[u8], extension: Option<&str>) -> (r: (Result<RgbaImage, PrimaryFailure>, bool))
    ensures
        r.1 == names_known_format(opt_str_view(extension)),
        unsupported_without_hint(r.1, primary_outcome(bytes@, opt_str_view(extension))),
        outcome_of(r.0) == primary_outcome(bytes@, opt_str_view(extension)),
        decoded_well_formed(r.0),
{
    let hint = extension.and_then(image::ImageFormat::from_extension);
    let cursor = std::io::Cursor::new(bytes);
    let reader = match hint {
        Some(f) => image::ImageReader::with_format(cursor, f),
        None => image::ImageReader::new(cursor),
    };
    let decoded = match reader.decode() {
        Ok(img) => {
            let buf = img.into_rgba8();
            Ok(RgbaImage { width: buf.width(), height: buf.height(), data: buf.into_raw() })
        },
        Err(image::ImageError::Unsupported(e)) => Err(PrimaryFailure::Unsupported(e.to_string())),
        Err(e) => Err(PrimaryFailure::Other(e.to_string())),
    };
    (decoded, hint.is_some())
}

/// The primary decoder on the bytes of a file; `extension` is the file's
/// extension, if it has a non-empty one. Returns the decoded image or the
/// failure, and whether the extension named a format that the decoder knows;
/// where it names none, the decoder fails as unsupported.
pub fn decode_primary(bytes: &[u8], extension: Option<&str>) -> (r: (
    Result<RgbaImage, PrimaryFailure>,
    bool,
))
    ensures
        r.1 == names_known_format(opt_str_view(extension)),
        !r.1 ==> r.0 matches Err(PrimaryFailure::Unsupported(_)),
        match primary_outcome(bytes@, opt_str_view(extension)) {
            Ok((w, h)) => r.0 matches Ok(img) && img.width == w && img.height == h
                && img.well_formed(),
            Err(unsupported) => r.0 matches Err(f) && (f is Unsupported <==> unsupported),
        },
{
    decode_with_extension(bytes, extension)
}

/// What to do after the primary decoder.
#[derive(Debug)]
pub enum DecodeStep {
    Decoded(RgbaImage),
    /// Try the fallback decoder; with the primary decoder's message.
    TryFallback(String),
    Failed(DecodeError),
}

/// Decides what follows the primary decoder: its image is the result; an
/// unsupported format leads to the fallback decoder where no format hint was
/// given, and is the error where one was; other failures are the error.
pub fn after_primary(primary: Result<RgbaImage, PrimaryFailure>, has_hint: bool) -> (r: DecodeStep)
    ensures
        match primary {
            Ok(img) => r == DecodeStep::Decoded(img),
            Err(PrimaryFailure::Unsupported(m)) => if has_hint {
                r == DecodeStep::Failed(DecodeError::Unsupported(m))
            } else {
                r == DecodeStep::TryFallback(m)
            },
            Err(PrimaryFailure::Other(m)) => r == DecodeStep::Failed(DecodeError::Failed(m)),
        },
{
    match primary {
        Ok(img) => DecodeStep::Decoded(img),
        Err(PrimaryFailure::Unsupported(m)) => {
            if has_hint {
                DecodeStep::Failed(DecodeError::Unsupported(m))
            } else {
                DecodeStep::TryFallback(m)
            }
        },
        Err(PrimaryFailure::Other(m)) => DecodeStep::Failed(DecodeError::Failed(m)),
    }
}

/// The result after the fallback decoder: its image, or an error that holds
/// both the primary decoder's message and the fallback's error.
pub fn after_fallback(unsupported: String, fallback: Result<RgbaImage, DecodeError>) -> (r: Result<
    RgbaImage,
    DecodeError,
>)
    ensures
        match fallback {
            Ok(img) => r == Ok::<RgbaImage, DecodeError>(img),
            Err(e) => r == Err::<RgbaImage, DecodeError>(
                DecodeError::FallbackFailed { unsupported, fallback: Box::new(e) },
            ),
        },
{
    match fallback {
        Ok(img) => Ok(img),
        Err(e) => Err(DecodeError::FallbackFailed { unsupported, fallback: Box::new(e) }),
    }
}

/// The colour space of a decoded HEIF image.
#[derive(Debug, Clone, Copy, PartialEq, Eq, Structural)]
pub enum HeifColorSpace {
    Monochrome,
    Rgb,
    Rgba,
    Other,
}

/// Samples per pixel of a colour space the pipeline accepts.
pub open spec fn channels_of(cs: HeifColorSpace) -> int {
    match cs {
        HeifColorSpace::Monochrome => 1,
        HeifColorSpace::Rgb => 3,
        _ => 4,
    }
}

/// Sample `c` of pixel `p` after widening a pixel of `ch` samples to RGBA:
/// grey is repeated in red, green and blue, and a missing alpha is opaque.
pub open spec fn widened(s: Seq<u8>, ch: int, p: int, c: int) -> u8 {
    if c == 3 {
        if ch == 4 {
            s[4 * p + 3]
        } else {
            255
        }
    } else if ch == 1 {
        s[p]
    } else {
        s[ch * p + c]
    }
}

/// Whether the fallback decoder's bit depth is accepted: 8, or 255, which a
/// decoder quirk reports for 8-bit planes.
pub open spec fn accepted_depth(bpp: u8) -> bool {
    bpp == 8 || bpp == 255
}

/// Widens `n` pixels of `ch` samples each to RGBA.
fn widen_to_rgba(samples: &Vec<u8>, ch: usize, n: usize) -> (r: Vec<u8>)
    requires
        ch == 1 || ch == 3 || ch == 4,
        ch * n <= samples@.len(),
        4 * n <= usize::MAX,
    ensures
        r@.len() == 4 * n,
        forall|p: int, c: int|
            0 <= p < n && 0 <= c < 4 ==> #[trigger] sample(r@, 4, p, c) == widened(
                samples@,
                ch as int,
                p,
                c,
            ),
{
    let mut out: Vec<u8> = Vec::new();
    let mut i: usize = 0;
    let mut k: usize = 0;
    while i < n
        invariant
            ch == 1 || ch == 3 || ch == 4,
            ch * n <= samples@.len(),
            4 * n <= usize::MAX,
            i <= n,
            k == ch * i,
            out@.len() == 4 * i,
            forall|p: int, c: int|
                0 <= p < i && 0 <= c < 4 ==> #[trigger] sample(out@, 4, p, c) == widened(
                    samples@,
                    ch as int,
                    p,
                    c,
                ),
        decreases n - i,
    {
        proof {
            vstd::arithmetic::mul::lemma_mul_inequality((i + 1) as int, n as int, ch as int);
            vstd::arithmetic::mul::lemma_mul_is_distributive_add(ch as int, i as int, 1);
        }
        let ghost before = out@;
        if ch == 1 {
            let g = samples[k];
            out.push(g);
            out.push(g);
            out.push(g);
            out.push(255);
        } else {
            out.push(samples[k]);
            out.push(samples[k + 1]);
            out.push(samples[k + 2]);
            if ch == 4 {
                out.push(samples[k + 3]);
            } else {
                out.push(255);
            }
        }
        assert forall|p: int, c: int| 0 <= p < i + 1 && 0 <= c < 4 implies #[trigger] sample(
            out@,
            4,
            p,
            c,
        ) == widened(samples@, ch as int, p, c) by {
            if p < i {
                assert(sample(before, 4, p, c) == widened(samples@, ch as int, p, c));
                assert(out@[4 * p + c] == before[4 * p + c]);
            }
        }
        i = i + 1;
        k = k + ch;
    }
    out
}

/// Turns the fallback decoder's output into an RGBA image. Monochrome, RGB and
/// RGBA planes of 8 bits (or the quirk value 255) are accepted, with at least
/// `width * height` pixels of samples; anything else is an error.
pub fn heif_to_rgba(
    color_space: HeifColorSpace,
    bpp: Option<u8>,
    width: u32,
    height: u32,
    plane: Option<Vec<u8>>,
) -> (r: Result<RgbaImage, DecodeError>)
    ensures
        color_space == HeifColorSpace::Other ==> r matches Err(DecodeError::UnsupportedColorSpace),
        color_space != HeifColorSpace::Other && plane is None ==> r matches Err(
            DecodeError::MissingPlane,
        ),
        color_space != HeifColorSpace::Other && plane is Some && bpp is None ==> r matches Err(
            DecodeError::MissingBitDepth,
        ),
        color_space != HeifColorSpace::Other && plane is Some && bpp is Some && !accepted_depth(
            bpp.unwrap(),
        ) ==> r == Err::<RgbaImage, DecodeError>(DecodeError::UnsupportedBitDepth(bpp.unwrap())),
        r is Ok <==> (color_space != HeifColorSpace::Other && bpp is Some && accepted_depth(
            bpp.unwrap(),
        ) && plane is Some && plane.unwrap()@.len() >= width as int * height as int * channels_of(
            color_space,
        ) && rgba_len(width, height) <= usize::MAX),
        r matches Ok(img) ==> img.width == width && img.height == height && img.well_formed()
            && (forall|p: int, c: int|
            0 <= p < width as int * height as int && 0 <= c < 4 ==> #[trigger] sample(
                img.data@,
                4,
                p,
                c,
            ) == widened(plane.unwrap()@, channels_of(color_space), p, c)),
{
    let ch: usize = match color_space {
        HeifColorSpace::Monochrome => 1,
        HeifColorSpace::Rgb => 3,
        HeifColorSpace::Rgba => 4,
        HeifColorSpace::Other => {
            return Err(DecodeError::UnsupportedColorSpace);
        },
    };
    let data = match plane {
        Some(d) => d,
        None => {
            return Err(DecodeError::MissingPlane);
        },
    };
    let depth = match bpp {
        Some(b) => b,
        None => {
            return Err(DecodeError::MissingBitDepth);
        },
    };
    if depth != 8 && depth != 255 {
        return Err(DecodeError::UnsupportedBitDepth(depth));
    }
    proof {
        vstd::arithmetic::mul::lemma_mul_upper_bound(
            width as int,
            u32::MAX as int,
            height as int,
            u32::MAX as int,
        );
    }
    let pixels: u128 = (width as u128) * (height as u128);
    assert(pixels as int == width as int * height as int);
    assert(pixels * 4 <= u128::MAX) by (nonlinear_arith)
        requires
            pixels as int <= u32::MAX as int * u32::MAX as int,
    ;
    assert(pixels * ch <= pixels * 4) by (nonlinear_arith)
        requires
            ch <= 4,
    ;
    if (data.len() as u128) < pixels * (ch as u128) {
        return Err(DecodeError::ShapeMismatch);
    }
    if pixels * 4 > usize::MAX as u128 {
        return Err(DecodeError::ShapeMismatch);
    }
    let n = pixels as usize;
    let out = widen_to_rgba(&data, ch, n);
    Ok(RgbaImage { width, height, data: out })
}

} // verus!
