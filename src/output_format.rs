use vstd::prelude::*;

use crate::pixels::{rgb_samples, sample, to_rgb8, RgbaImage};

verus! {

/// The codec of an exported file.
#[derive(Debug, Clone, Copy, PartialEq, Eq, Structural)]
pub enum OutputExtension {
    /// Lossy JPEG with a quality of 1 to 100.
    Jpeg,
    /// Lossy WebP with a quality of 1 to 100.
    Webp,
    /// Lossless PNG at the highest compression.
    PngOptimized,
}

impl OutputExtension {
    /// The file extension of the codec.
    pub open spec fn spec_extension(self) -> Seq<char> {
        match self {
            OutputExtension::Jpeg => "jpg"@,
            OutputExtension::Webp => "webp"@,
            OutputExtension::PngOptimized => "png"@,
        }
    }

    pub fn extension(&self) -> (r: &'static str)
        ensures
            r@ == self.spec_extension(),
    {
        match self {
            OutputExtension::Jpeg => "jpg",
            OutputExtension::Webp => "webp",
            OutputExtension::PngOptimized => "png",
        }
    }

    pub fn label(&self) -> (r: &'static str)
        ensures
            r@ == (match *self {
                OutputExtension::Jpeg => "JPEG"@,
                OutputExtension::Webp => "WEBP"@,
                OutputExtension::PngOptimized => "PNG"@,
            }),
    {
        match self {
            OutputExtension::Jpeg => "JPEG",
            OutputExtension::Webp => "WEBP",
            OutputExtension::PngOptimized => "PNG",
        }
    }

    /// Whether the codec takes a quality parameter.
    pub open spec fn spec_has_quality(self) -> bool {
        self == OutputExtension::Jpeg || self == OutputExtension::Webp
    }
}

/// A codec and its parameters.
#[derive(Debug, Clone, Copy, PartialEq, Eq, Structural)]
pub struct OutputFormat {
    pub ext: OutputExtension,
    /// Quality of the lossy codecs, 1 to 100; the lossless codec ignores it.
    pub quality: u8,
}

impl OutputFormat {
    pub fn extension(&self) -> (r: &'static str)
        ensures
            r@ == self.ext.spec_extension(),
    {
        self.ext.extension()
    }

    /// Whether the codec takes the quality parameter.
    pub fn has_quality(&self) -> (r: bool)
        ensures
            r == self.ext.spec_has_quality(),
    {
        match self.ext {
            OutputExtension::Jpeg | OutputExtension::Webp => true,
            OutputExtension::PngOptimized => false,
        }
    }
}

impl OutputFormat {
    pub open spec fn spec_default() -> OutputFormat {
        OutputFormat { ext: OutputExtension::Webp, quality: 90 }
    }
}

impl Default for OutputFormat {
    /// WebP at quality 90.
    fn default() -> (r: OutputFormat)
        ensures
            r == OutputFormat::spec_default(),
    {
        OutputFormat { ext: OutputExtension::Webp, quality: 90 }
    }
}

/// What an encoder is handed: the codec, its quality, and the image as 8-bit
/// RGB samples.
#[derive(Debug, Clone)]
pub struct EncoderInput {
    pub ext: OutputExtension,
    pub quality: u8,
    pub width: u32,
    pub height: u32,
    pub rgb: Vec<u8>,
}

impl EncoderInput {
    /// Three samples for each pixel.
    pub open spec fn well_formed(&self) -> bool {
        self.rgb@.len() == self.width as int * self.height as int * 3
    }
}

/// Why an image could not be written.
#[derive(Debug, Clone)]
pub enum EncodeError {
    /// The codec failed; with its message.
    Codec(String),
    /// The file could not be written; with the message.
    Io(String),
}

impl OutputFormat {
    /// The encoder's input for an image: this codec and quality, and the
    /// image's samples with alpha dropped.
    pub fn encoder_input(&self, img: &RgbaImage) -> (r: EncoderInput)
        requires
            img.well_formed(),
        ensures
            r.ext == self.ext,
            r.quality == self.quality,
            r.width == img.width,
            r.height == img.height,
            r.well_formed(),
            r.rgb@ == rgb_samples(img.data@),
            forall|p: int, c: int|
                0 <= p < img.width as int * img.height as int && 0 <= c < 3 ==> #[trigger] sample(
                    r.rgb@,
                    3,
                    p,
                    c,
                ) == sample(img.data@, 4, p, c),
    {
        EncoderInput {
            ext: self.ext,
            quality: self.quality,
            width: img.width,
            height: img.height,
            rgb: to_rgb8(img),
        }
    }
}

/// The bytes of the PNG file that the image crate's encoder writes for the
/// 8-bit RGB samples `rgb` of a `width` x `height` image, at the highest
/// compression with adaptive filtering.
pub uninterp spec fn png_best_of(rgb: Seq<u8>, width: u32, height: u32) -> Seq<u8>;

/// Relies on image's PNG encoder: `PngEncoder::new_with_quality` with
/// `CompressionType::Best` and `FilterType::Adaptive`, and
/// `ImageEncoder::write_image` with `ExtendedColorType::Rgb8` into a byte
/// vector, which asserts that the buffer holds three samples for each pixel.
/// The png crate refuses only a zero width or height here: its writes go into
/// the vector.
#[verifier::external_body]
fn png_best(rgb: &[u8], width: u32, height: u32) -> (r: Result<Vec<u8>, String>)
    requires
        rgb@.len() == width as int * height as int * 3,
    ensures
        positive_size(width, height) ==> r is Ok,
        r is Ok ==> r->Ok_0@ == png_best_of(rgb@, width, height),
{
    let mut out: Vec<u8> = Vec::new();
    let encoder = image::codecs::png::PngEncoder::new_with_quality(
        &mut out,
        image::codecs::png::CompressionType::Best,
        image::codecs::png::FilterType::Adaptive,
    );
    let written = image::ImageEncoder::write_image(
        encoder,
        rgb,
        width,
        height,
        image::ExtendedColorType::Rgb8,
    );
    written.map(|_| out).map_err(|e| e.to_string())
}

/// Both sides are positive.
pub open spec fn positive_size(width: u32, height: u32) -> bool {
    width > 0 && height > 0
}

/// Encodes an image as PNG at the highest compression; an image with a side
/// of zero pixels is refused.
pub fn encode_png(input: &EncoderInput) -> (r: Result<Vec<u8>, EncodeError>)
    requires
        input.well_formed(),
    ensures
        positive_size(input.width, input.height) ==> r is Ok,
        r matches Ok(b) ==> b@ == png_best_of(input.rgb@, input.width, input.height),
        r matches Err(e) ==> e is Codec,
{
    match png_best(input.rgb.as_slice(), input.width, input.height) {
        Ok(bytes) => Ok(bytes),
        Err(m) => Err(EncodeError::Codec(m)),
    }
}

/// What the library makes of an image for a codec: the finished file, or,
/// for a codec whose encoder takes its quality as a float, that encoder's
/// input.
#[derive(Debug)]
pub enum EncodeStep {
    Done(Vec<u8>),
    Lossy(EncoderInput),
}

impl OutputFormat {
    /// Encodes an image with this format's codec: the lossless codec is run
    /// here; the lossy codecs get their input, this quality and the RGB
    /// samples.
    pub fn encode_image(&self, img: &RgbaImage) -> (r: Result<EncodeStep, EncodeError>)
        requires
            img.well_formed(),
        ensures
            self.ext == OutputExtension::PngOptimized && positive_size(img.width, img.height)
                ==> (r matches Ok(EncodeStep::Done(b)) && b@ == png_best_of(
                rgb_samples(img.data@),
                img.width,
                img.height,
            )),
            self.ext == OutputExtension::PngOptimized ==> !(r matches Ok(EncodeStep::Lossy(_))),
            self.ext.spec_has_quality() ==> (r matches Ok(EncodeStep::Lossy(input)) && input.ext
                == self.ext && input.quality == self.quality && input.width == img.width
                && input.height == img.height && input.well_formed() && (forall|p: int, c: int|
                0 <= p < img.width as int * img.height as int && 0 <= c < 3 ==> #[trigger] sample(
                    input.rgb@,
                    3,
                    p,
                    c,
                ) == sample(img.data@, 4, p, c))),
    {
        let input = self.encoder_input(img);
        match self.ext {
            OutputExtension::PngOptimized => {
                let bytes = encode_png(&input)?;
                Ok(EncodeStep::Done(bytes))
            },
            OutputExtension::Jpeg | OutputExtension::Webp => Ok(EncodeStep::Lossy(input)),
        }
    }
}

} // verus!
