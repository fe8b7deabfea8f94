use vstd::prelude::*;

use crate::orientation::{spec_is_vertical_rotated, Orientation};
use crate::scale_config::{planned_size, plan_fits, ScaleConfig, ScaleMode};

verus! {

/// An image of 8-bit red, green, blue and alpha samples, row by row.
#[derive(Debug, Clone)]
pub struct RgbaImage {
    pub width: u32,
    pub height: u32,
    pub data: Vec<u8>,
}

/// Four samples for each pixel.
pub open spec fn rgba_len(width: u32, height: u32) -> int {
    width as int * height as int * 4
}

impl RgbaImage {
    /// The buffer holds exactly four samples for each pixel.
    pub open spec fn well_formed(&self) -> bool {
        self.data@.len() == rgba_len(self.width, self.height)
    }
}

/// Why an image could not be resampled, oriented or cropped.
#[derive(Debug, Clone, Copy, PartialEq, Eq, Structural)]
pub enum ResizeError {
    /// The scale policy cannot be applied to the image's size.
    Unplannable,
    /// The resampler refused the buffers.
    Rejected,
    /// A buffer came back with a size that does not match its dimensions.
    ShapeMismatch,
}

/// The samples that fast_image_resize's default resampling (convolution with
/// the Lanczos3 filter) gives for a `dst_w` x `dst_h` image from the RGBA
/// samples `src` of a `src_w` x `src_h` image.
pub uninterp spec fn resampled(src: Seq<u8>, src_w: u32, src_h: u32, dst_w: u32, dst_h: u32) -> Seq<u8>;

/// Relies on fast_image_resize: `Image::from_vec_u8` with `PixelType::U8x4`
/// fails only on a short buffer; `Image::new` allocates four samples per
/// pixel; `Resizer::resize` fails only on differing pixel types; and
/// `Image::into_vec` hands back the buffer.
#[verifier::external_body]
fn resample_u8x4(data: &Vec<u8>, src_w: u32, src_h: u32, dst_w: u32, dst_h: u32) -> (r: Option<Vec<u8>>)
    ensures
        data@.len() == rgba_len(src_w, src_h) ==> r is Some,
        data@.len() == rgba_len(src_w, src_h) ==> r.unwrap()@ == resampled(
            data@,
            src_w,
            src_h,
            dst_w,
            dst_h,
        ),
        r is Some ==> r.unwrap()@.len() == rgba_len(dst_w, dst_h),
{
    let pt = fast_image_resize::PixelType::U8x4;
    let src = fast_image_resize::images::Image::from_vec_u8(src_w, src_h, data.clone(), pt).ok()?;
    let mut dst = fast_image_resize::images::Image::new(dst_w, dst_h, pt);
    fast_image_resize::Resizer::new().resize(&src, &mut dst, None).ok()?;
    Some(dst.into_vec())
}

/// Resamples an image to `new_width` x `new_height` with a filter of the
/// convolution family, into a new buffer.
pub fn resize_image(img: &RgbaImage, new_width: u32, new_height: u32) -> (r: Result<
    RgbaImage,
    ResizeError,
>)
    requires
        img.well_formed(),
    ensures
        r matches Ok(out) && out.width == new_width && out.height == new_height
            && out.well_formed() && out.data@ == resampled(
            img.data@,
            img.width,
            img.height,
            new_width,
            new_height,
        ),
{
    match resample_u8x4(&img.data, img.width, img.height, new_width, new_height) {
        Some(data) => Ok(RgbaImage { width: new_width, height: new_height, data }),
        None => Err(ResizeError::Rejected),
    }
}

/// Whether the orientation transform turns the image by a quarter turn, so
/// that width and height trade places.
pub open spec fn swaps_sides(o: Orientation) -> bool {
    o == Orientation::Transpose || o == Orientation::Rotate90 || o == Orientation::Transverse || o
        == Orientation::Rotate270
}

/// The size of an image after its orientation transform.
pub open spec fn oriented_size(o: Orientation, w: int, h: int) -> (int, int) {
    if swaps_sides(o) {
        (h, w)
    } else {
        (w, h)
    }
}

/// The TIFF value of an orientation, where it names a transform; 0 (no
/// transform) otherwise.
pub open spec fn tiff_value(o: Orientation) -> u8 {
    match o {
        Orientation::Normal => 1,
        Orientation::FlipHorizontal => 2,
        Orientation::Rotate180 => 3,
        Orientation::FlipVertical => 4,
        Orientation::Transpose => 5,
        Orientation::Rotate90 => 6,
        Orientation::Transverse => 7,
        Orientation::Rotate270 => 8,
        _ => 0,
    }
}

/// The samples of a `width` x `height` RGBA image after the image crate's
/// orientation transform for the TIFF value `tiff`.
pub uninterp spec fn oriented(data: Seq<u8>, width: u32, height: u32, tiff: u8) -> Seq<u8>;

fn tiff_byte(o: Orientation) -> (r: u8)
    ensures
        r == tiff_value(o),
        swaps_sides(o) <==> (5 <= r <= 8),
{
    match o {
        Orientation::Normal => 1,
        Orientation::FlipHorizontal => 2,
        Orientation::Rotate180 => 3,
        Orientation::FlipVertical => 4,
        Orientation::Transpose => 5,
        Orientation::Rotate90 => 6,
        Orientation::Transverse => 7,
        Orientation::Rotate270 => 8,
        Orientation::NoInfo | Orientation::Reserved(_) => 0,
    }
}

/// Relies on image: `metadata::Orientation::from_exif` and
/// `DynamicImage::apply_orientation`. The TIFF values 5 to 8 turn the image a
/// quarter turn (the output is `height` x `width`); the others keep its size.
/// `ImageBuffer::from_raw` accepts a buffer of four samples per pixel; a
/// quarter turn allocates the turned image with four samples per pixel, and
/// the other transforms work in place.
#[verifier::external_body]
fn orient_rgba(data: Vec<u8>, width: u32, height: u32, tiff: u8) -> (r: Option<(u32, u32, Vec<u8>)>)
    requires
        data@.len() == rgba_len(width, height),
    ensures
        r is Some,
        r is Some ==> r.unwrap().2@ == oriented(data@, width, height, tiff),
        r is Some ==> (r.unwrap().0, r.unwrap().1) == (if 5 <= tiff <= 8 {
            (height, width)
        } else {
            (width, height)
        }),
        r is Some ==> r.unwrap().2@.len() == rgba_len(r.unwrap().0, r.unwrap().1),
{
    let buf = image::RgbaImage::from_raw(width, height, data)?;
    let mut img = image::DynamicImage::ImageRgba8(buf);
    let o = image::metadata::Orientation::from_exif(tiff);
    img.apply_orientation(o.unwrap_or(image::metadata::Orientation::NoTransforms));
    let out = img.into_rgba8();
    Some((out.width(), out.height(), out.into_raw()))
}

/// Turns and flips an image so that it shows upright.
pub fn apply_orientation(img: RgbaImage, o: Orientation) -> (r: Result<RgbaImage, ResizeError>)
    requires
        img.well_formed(),
    ensures
        r matches Ok(out) && out.well_formed() && (out.width as int, out.height as int)
            == oriented_size(o, img.width as int, img.height as int) && out.data@ == oriented(
            img.data@,
            img.width,
            img.height,
            tiff_value(o),
        ),
{
    let (w, h) = (img.width, img.height);
    match orient_rgba(img.data, w, h, tiff_byte(o)) {
        Some((nw, nh, data)) => Ok(RgbaImage { width: nw, height: nh, data }),
        None => Err(ResizeError::ShapeMismatch),
    }
}

/// Sample `c` of the pixel at column `x` and row `y` of an RGBA image whose
/// rows are `w` pixels wide.
pub open spec fn pixel_sample(s: Seq<u8>, w: int, x: int, y: int, c: int) -> u8 {
    s[(y * w + x) * 4 + c]
}

/// Relies on image: `ImageBuffer::from_raw` accepts a buffer of four samples
/// per pixel; within the image, `imageops::crop_imm` keeps the requested
/// region, and `SubImage::to_image` copies its pixels, row by row, into a new
/// buffer of that size.
#[verifier::external_body]
fn crop_rgba(data: Vec<u8>, width: u32, height: u32, x: u32, y: u32, cw: u32, ch: u32) -> (r: Option<Vec<u8>>)
    requires
        x as int + cw as int <= width as int,
        y as int + ch as int <= height as int,
    ensures
        data@.len() == rgba_len(width, height) ==> r is Some,
        r is Some ==> r.unwrap()@.len() == rgba_len(cw, ch),
        r is Some ==> forall|i: int, j: int, c: int|
            0 <= i < cw && 0 <= j < ch && 0 <= c < 4 ==> #[trigger] pixel_sample(
                r.unwrap()@,
                cw as int,
                i,
                j,
                c,
            ) == pixel_sample(data@, width as int, x + i, y + j, c),
{
    let buf = image::RgbaImage::from_raw(width, height, data)?;
    Some(image::imageops::crop_imm(&buf, x, y, cw, ch).to_image().into_raw())
}

/// The `cw` x `ch` region of an image whose top-left corner is at (`x`, `y`).
pub fn crop(img: RgbaImage, x: u32, y: u32, cw: u32, ch: u32) -> (r: Result<RgbaImage, ResizeError>)
    requires
        img.well_formed(),
        x as int + cw as int <= img.width as int,
        y as int + ch as int <= img.height as int,
    ensures
        r matches Ok(out) && out.well_formed() && out.width == cw && out.height == ch && (forall|
            i: int,
            j: int,
            c: int,
        |
            0 <= i < cw && 0 <= j < ch && 0 <= c < 4 ==> #[trigger] pixel_sample(
                out.data@,
                cw as int,
                i,
                j,
                c,
            ) == pixel_sample(img.data@, img.width as int, x + i, y + j, c)),
{
    let w = img.width;
    match crop_rgba(img.data, w, img.height, x, y, cw, ch) {
        Some(data) => Ok(RgbaImage { width: cw, height: ch, data }),
        None => Err(ResizeError::ShapeMismatch),
    }
}

/// Resamples an image to the size that a scale policy plans for it, then
/// turns it upright.
pub fn with_scale_and_orientation(img: &RgbaImage, scale: ScaleConfig, o: Orientation) -> (r: Result<
    RgbaImage,
    ResizeError,
>)
    requires
        img.well_formed(),
    ensures
        plan_fits(scale, img.width, img.height, spec_is_vertical_rotated(o)) ==> r is Ok,
        r matches Ok(out) ==> out.well_formed() && plan_fits(
            scale,
            img.width,
            img.height,
            spec_is_vertical_rotated(o),
        ) && (out.width as int, out.height as int) == ({
            let p = planned_size(scale, img.width, img.height, spec_is_vertical_rotated(o));
            oriented_size(o, p.0, p.1)
        }),
        r matches Ok(out) ==> out.data@ == ({
            let p = planned_size(scale, img.width, img.height, spec_is_vertical_rotated(o));
            oriented(
                resampled(img.data@, img.width, img.height, p.0 as u32, p.1 as u32),
                p.0 as u32,
                p.1 as u32,
                tiff_value(o),
            )
        }),
        !plan_fits(scale, img.width, img.height, spec_is_vertical_rotated(o)) ==> r
            == Err::<RgbaImage, ResizeError>(ResizeError::Unplannable),
{
    match scale.checked_apply(img.width, img.height, o.is_vertical_rotated()) {
        Some((w, h)) => {
            let resized = resize_image(img, w, h)?;
            apply_orientation(resized, o)
        },
        None => Err(ResizeError::Unplannable),
    }
}

/// Width of a list thumbnail.
pub const THUMBNAIL_MAX_WIDTH: u32 = 330;

/// Height of a list thumbnail.
pub const THUMBNAIL_MAX_HEIGHT: u32 = 220;

/// The thumbnail policy: cover 330 x 220, to be cropped at the centre.
pub open spec fn thumbnail_scale() -> ScaleConfig {
    ScaleConfig {
        mode: ScaleMode::ResizeAndCrop,
        value: THUMBNAIL_MAX_WIDTH,
        sub_value: THUMBNAIL_MAX_HEIGHT,
    }
}

/// Sample `c` of the thumbnail pixel at column `i` and row `j`: the image is
/// resampled to the cover size planned on its upright sides, turned upright,
/// and the 330 x 220 region at the centre is taken.
pub open spec fn thumbnail_sample(data: Seq<u8>, w: u32, h: u32, o: Orientation, i: int, j: int, c: int) -> u8 {
    let p = planned_size(thumbnail_scale(), w, h, swaps_sides(o));
    let upright = oriented(
        resampled(data, w, h, p.0 as u32, p.1 as u32),
        p.0 as u32,
        p.1 as u32,
        tiff_value(o),
    );
    let u = oriented_size(o, p.0, p.1);
    let x0 = (u.0 - THUMBNAIL_MAX_WIDTH) / 2;
    let y0 = (u.1 - THUMBNAIL_MAX_HEIGHT) / 2;
    pixel_sample(upright, u.0, x0 + i, y0 + j, c)
}

fn turns_quarter(o: Orientation) -> (r: bool)
    ensures
        r == swaps_sides(o),
{
    match o {
        Orientation::Transpose | Orientation::Rotate90 | Orientation::Transverse
        | Orientation::Rotate270 => true,
        _ => false,
    }
}

/// A 330 x 220 thumbnail: the image scaled to cover that size once upright,
/// turned upright, and cropped at the centre. The cover size is planned on
/// the upright sides, so every orientation that turns the image a quarter
/// (mirrored or not) is planned as turned.
pub fn gen_thumbnail(img: &RgbaImage, o: Orientation) -> (r: Result<RgbaImage, ResizeError>)
    requires
        img.well_formed(),
    ensures
        img.width > 0 && img.height > 0 <==> r is Ok,
        r matches Ok(t) ==> t.well_formed() && t.width == THUMBNAIL_MAX_WIDTH && t.height
            == THUMBNAIL_MAX_HEIGHT,
        r matches Ok(t) ==> forall|i: int, j: int, c: int|
            0 <= i < THUMBNAIL_MAX_WIDTH && 0 <= j < THUMBNAIL_MAX_HEIGHT && 0 <= c < 4
                ==> #[trigger] pixel_sample(t.data@, THUMBNAIL_MAX_WIDTH as int, i, j, c)
                == thumbnail_sample(img.data@, img.width, img.height, o, i, j, c),
{
    if img.width == 0 || img.height == 0 {
        return Err(ResizeError::Unplannable);
    }
    let scale = ScaleConfig {
        mode: ScaleMode::ResizeAndCrop,
        value: THUMBNAIL_MAX_WIDTH,
        sub_value: THUMBNAIL_MAX_HEIGHT,
    };
    let quarter = turns_quarter(o);
    let (w, h) = scale.apply(img.width, img.height, quarter);
    proof {
        crate::scale_config::lemma_resize_and_crop_covers_target(
            crate::scale_config::effective_config(scale, quarter),
            img.width,
            img.height,
        );
    }
    let resized = resize_image(img, w, h)?;
    let upright = apply_orientation(resized, o)?;
    let x = (upright.width - THUMBNAIL_MAX_WIDTH) / 2;
    let y = (upright.height - THUMBNAIL_MAX_HEIGHT) / 2;
    crop(upright, x, y, THUMBNAIL_MAX_WIDTH, THUMBNAIL_MAX_HEIGHT)
}

/// Sample `c` of pixel `p` in a buffer of `stride` samples per pixel.
pub open spec fn sample(s: Seq<u8>, stride: int, p: int, c: int) -> u8 {
    s[stride * p + c]
}

/// The red, green and blue samples of RGBA samples, alpha dropped.
pub open spec fn rgb_samples(rgba: Seq<u8>) -> Seq<u8> {
    Seq::new((rgba.len() / 4 * 3) as nat, |k: int| rgba[4 * (k / 3) + k % 3])
}

/// The red, green and blue samples of an image, its alpha dropped.
pub fn to_rgb8(img: &RgbaImage) -> (r: Vec<u8>)
    requires
        img.well_formed(),
    ensures
        r@ == rgb_samples(img.data@),
        r@.len() == img.width as int * img.height as int * 3,
        forall|p: int, c: int|
            0 <= p < img.width as int * img.height as int && 0 <= c < 3 ==> #[trigger] sample(
                r@,
                3,
                p,
                c,
            ) == sample(img.data@, 4, p, c),
{
    let n = img.data.len() / 4;
    proof {
        let wh = img.width as int * img.height as int;
        assert(img.data@.len() == 4 * wh) by (nonlinear_arith)
            requires
                img.data@.len() == img.width as int * img.height as int * 4,
                wh == img.width as int * img.height as int,
        ;
    }
    let mut out: Vec<u8> = Vec::new();
    let mut i: usize = 0;
    while i < n
        invariant
            n as int == img.width as int * img.height as int,
            img.data@.len() == 4 * n,
            4 * n <= usize::MAX,
            i <= n,
            out@.len() == 3 * i,
            forall|p: int, c: int|
                0 <= p < i && 0 <= c < 3 ==> #[trigger] sample(out@, 3, p, c) == sample(
                    img.data@,
                    4,
                    p,
                    c,
                ),
        decreases n - i,
    {
        let ghost before = out@;
        out.push(img.data[4 * i]);
        out.push(img.data[4 * i + 1]);
        out.push(img.data[4 * i + 2]);
        assert forall|p: int, c: int| 0 <= p < i + 1 && 0 <= c < 3 implies #[trigger] sample(
            out@,
            3,
            p,
            c,
        ) == sample(img.data@, 4, p, c) by {
            if p < i {
                assert(sample(before, 3, p, c) == sample(img.data@, 4, p, c));
                assert(out@[3 * p + c] == before[3 * p + c]);
            }
        }
        i = i + 1;
    }
    assert(out@ =~= rgb_samples(img.data@)) by {
        assert forall|k: int| 0 <= k < out@.len() implies out@[k] == rgb_samples(img.data@)[k] by {
            let p = k / 3;
            let c = k % 3;
            assert(k == 3 * p + c);
            assert(sample(out@, 3, p, c) == sample(img.data@, 4, p, c));
        }
    }
    out
}

} // verus!
