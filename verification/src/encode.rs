//! Encoding of the composite: the encoder of each format and its settings.

use crate::format::OutputFormat;
use std::io::Cursor;
use stitchy_core::image::{
    DynamicImage, Frame, GifEncoder, ImageFormat, JpegEncoder, PngCompressionType, PngEncoder,
    PngFilterType,
};
use vstd::prelude::*;
use vstd::string::StringExecFns;

verus! {

/// A decoded bitmap of the `image` crate.
#[verifier::external_type_specification]
#[verifier::external_body]
pub struct ExDynamicImage(DynamicImage);

/// The effort of the PNG encoder.
#[derive(Clone, Copy, Debug, PartialEq, Eq, Structural)]
pub enum PngCompression {
    /// Smallest output.
    Best,
    /// Fastest encode.
    Fast,
}

/// The encoder of the output and its one knob.
#[derive(Clone, Copy, Debug, PartialEq, Eq, Structural)]
pub enum EncoderSettings {
    Jpeg { quality: u8 },
    Png { compression: PngCompression },
    /// Speed from 1, slowest and smallest, to 30.
    Gif { speed: i32 },
    /// An encoder without knobs, for the given format.
    Plain { format: OutputFormat },
}

/// The settings per format: JPEG takes the quality, cut to its low eight
/// bits; PNG and GIF take the size preference; the others take nothing.
pub open spec fn settings_of(format: OutputFormat, quality: u32, small: bool) -> EncoderSettings {
    match format {
        OutputFormat::Jpeg => EncoderSettings::Jpeg { quality: (quality % 256) as u8 },
        OutputFormat::Png => EncoderSettings::Png {
            compression: if small {
                PngCompression::Best
            } else {
                PngCompression::Fast
            },
        },
        OutputFormat::Gif => EncoderSettings::Gif {
            speed: if small {
                1i32
            } else {
                10i32
            },
        },
        OutputFormat::Bmp => EncoderSettings::Plain { format: OutputFormat::Bmp },
        OutputFormat::WebP => EncoderSettings::Plain { format: OutputFormat::WebP },
    }
}

/// Chooses the encoder and its knob for a format.
pub fn encoder_settings(format: OutputFormat, quality: u32, small: bool) -> (settings:
    EncoderSettings)
    ensures
        settings == settings_of(format, quality, small),
{
    match format {
        OutputFormat::Jpeg => {
            let low: u32 = quality % 256;
            EncoderSettings::Jpeg { quality: low as u8 }
        },
        OutputFormat::Png => {
            if small {
                EncoderSettings::Png { compression: PngCompression::Best }
            } else {
                EncoderSettings::Png { compression: PngCompression::Fast }
            }
        },
        OutputFormat::Gif => {
            if small {
                EncoderSettings::Gif { speed: 1 }
            } else {
                EncoderSettings::Gif { speed: 10 }
            }
        },
        OutputFormat::Bmp => EncoderSettings::Plain { format: OutputFormat::Bmp },
        OutputFormat::WebP => EncoderSettings::Plain { format: OutputFormat::WebP },
    }
}

/// An encoder's outcome as plain values: the bytes, or the description.
pub open spec fn outcome_view(outcome: Result<Vec<u8>, String>) -> Result<Seq<u8>, Seq<char>> {
    match outcome {
        Ok(bytes) => Ok(bytes@),
        Err(e) => Err(e@),
    }
}

/// `JpegEncoder::new_with_quality` and `encode_image`, into memory: the
/// outcome is what the encoder makes of this image at this quality.
#[verifier::external_body]
fn encode_jpeg(image: &DynamicImage, quality: u8) -> (encoded: Result<Vec<u8>, String>)
    ensures
        outcome_view(encoded) == jpeg_encoding(*image, quality),
{
    let mut bytes: Vec<u8> = Vec::new();
    let done = JpegEncoder::new_with_quality(&mut bytes, quality).encode_image(image);
    match done {
        Ok(()) => Ok(bytes),
        Err(e) => Err(format!("{}", e)),
    }
}

/// `PngEncoder::new_with_quality` with the default filter, and
/// `DynamicImage::write_with_encoder`, into memory: the outcome is what the
/// encoder makes of this image at this effort.
#[verifier::external_body]
fn encode_png(image: &DynamicImage, compression: PngCompression) -> (encoded: Result<
    Vec<u8>,
    String,
>)
    ensures
        outcome_view(encoded) == png_encoding(*image, compression),
{
    let mode = match compression {
        PngCompression::Best => PngCompressionType::Best,
        PngCompression::Fast => PngCompressionType::Fast,
    };
    let mut bytes: Vec<u8> = Vec::new();
    let encoder = PngEncoder::new_with_quality(&mut bytes, mode, PngFilterType::default());
    match image.write_with_encoder(encoder) {
        Ok(()) => Ok(bytes),
        Err(e) => Err(format!("{}", e)),
    }
}

/// `GifEncoder::new_with_speed` and `encode_frame` on the image as one RGBA
/// frame: what the encoder makes of it at this speed, which must be 1 to 30.
#[verifier::external_body]
fn encode_gif(image: &DynamicImage, speed: i32) -> (encoded: Result<Vec<u8>, String>)
    requires
        1 <= speed <= 30,
    ensures
        outcome_view(encoded) == gif_encoding(*image, speed),
{
    let mut bytes: Vec<u8> = Vec::new();
    let done = GifEncoder::new_with_speed(&mut bytes, speed).encode_frame(
        Frame::new(image.to_rgba8()),
    );
    match done {
        Ok(()) => Ok(bytes),
        Err(e) => Err(format!("{}", e)),
    }
}

/// `DynamicImage::write_to` with the format's own encoder, into memory: the
/// outcome is what that encoder makes of this image.
#[verifier::external_body]
fn encode_plain(image: &DynamicImage, format: OutputFormat) -> (encoded: Result<Vec<u8>, String>)
    ensures
        outcome_view(encoded) == plain_encoding(*image, format),
{
    let target = match format {
        OutputFormat::Jpeg => ImageFormat::Jpeg,
        OutputFormat::Png => ImageFormat::Png,
        OutputFormat::Gif => ImageFormat::Gif,
        OutputFormat::Bmp => ImageFormat::Bmp,
        OutputFormat::WebP => ImageFormat::WebP,
    };
    let mut bytes: Vec<u8> = Vec::new();
    match image.write_to(&mut Cursor::new(&mut bytes), target) {
        Ok(()) => Ok(bytes),
        Err(e) => Err(format!("{}", e)),
    }
}

/// Encodes the image for the given format with the settings that
/// `settings_of` gives for it, and hands back the encoded file: what the
/// format's encoder makes of the image with those settings. A failure of the
/// encoder is worded as "Failed to generate output file - " and its description.
pub fn write_image_to_file(
    image: DynamicImage,
    format: OutputFormat,
    quality: u32,
    encode_smallest: bool,
) -> (written: Result<Vec<u8>, String>)
    ensures
        outcome_view(written) == worded(
            encoding_of(image, settings_of(format, quality, encode_smallest)),
        ),
{
    let encoded = match encoder_settings(format, quality, encode_smallest) {
        EncoderSettings::Jpeg { quality } => encode_jpeg(&image, quality),
        EncoderSettings::Png { compression } => encode_png(&image, compression),
        EncoderSettings::Gif { speed } => encode_gif(&image, speed),
        EncoderSettings::Plain { format } => encode_plain(&image, format),
    };
    encode_outcome(encoded)
}

/// What `JpegEncoder::encode_image` makes of an image at a quality: the
/// encoded file, or the encoder's description of its failure. The encoder
/// draws on nothing but the two.
pub uninterp spec fn jpeg_encoding(image: DynamicImage, quality: u8) -> Result<Seq<u8>, Seq<char>>;

/// What `DynamicImage::write_with_encoder` makes of an image with a PNG
/// encoder of the given effort and the default filter.
pub uninterp spec fn png_encoding(image: DynamicImage, compression: PngCompression) -> Result<
    Seq<u8>,
    Seq<char>,
>;

/// What `GifEncoder::encode_frame` makes of an image at a speed.
pub uninterp spec fn gif_encoding(image: DynamicImage, speed: i32) -> Result<Seq<u8>, Seq<char>>;

/// What `DynamicImage::write_to` makes of an image for a format.
pub uninterp spec fn plain_encoding(image: DynamicImage, format: OutputFormat) -> Result<
    Seq<u8>,
    Seq<char>,
>;

/// What the encoder of the given settings makes of an image.
pub open spec fn encoding_of(image: DynamicImage, settings: EncoderSettings) -> Result<
    Seq<u8>,
    Seq<char>,
> {
    match settings {
        EncoderSettings::Jpeg { quality } => jpeg_encoding(image, quality),
        EncoderSettings::Png { compression } => png_encoding(image, compression),
        EncoderSettings::Gif { speed } => gif_encoding(image, speed),
        EncoderSettings::Plain { format } => plain_encoding(image, format),
    }
}

/// An encoding with its failure worded: the bytes as they are, or the
/// description behind "Failed to generate output file - ".
pub open spec fn worded(encoding: Result<Seq<u8>, Seq<char>>) -> Result<Seq<u8>, Seq<char>> {
    match encoding {
        Ok(bytes) => Ok(bytes),
        Err(e) => Err("Failed to generate output file - "@ + e),
    }
}

/// What an encoder's outcome becomes: the bytes as they are, or the
/// description behind "Failed to generate output file - ".
pub open spec fn encode_outcome_of(encoded: Result<Vec<u8>, String>) -> Result<Seq<u8>, Seq<char>> {
    worded(outcome_view(encoded))
}

/// Passes an encoder's bytes on, or words its failure.
pub fn encode_outcome(encoded: Result<Vec<u8>, String>) -> (outcome: Result<Vec<u8>, String>)
    ensures
        encode_outcome_of(encoded) matches Ok(bytes) ==> (outcome matches Ok(b) && b@ == bytes),
        encode_outcome_of(encoded) matches Err(text) ==> (outcome matches Err(m) && m@ == text),
{
    match encoded {
        Ok(bytes) => Ok(bytes),
        Err(e) => Err(String::from_str("Failed to generate output file - ").concat(e.as_str())),
    }
}

/// The encoder settings follow the size preference and the quality only
/// where the format has such a knob: the quality for JPEG alone, the size
/// preference for PNG and GIF alone.
pub proof fn lemma_settings_knobs(format: OutputFormat, q1: u32, q2: u32, s1: bool, s2: bool)
    ensures
        format != OutputFormat::Jpeg ==> settings_of(format, q1, s1) == settings_of(format, q2, s1),
        format != OutputFormat::Png && format != OutputFormat::Gif ==> settings_of(format, q1, s1)
            == settings_of(format, q1, s2),
        q1 <= 100 ==> settings_of(OutputFormat::Jpeg, q1, s1) == (EncoderSettings::Jpeg {
            quality: q1 as u8,
        }),
        settings_of(format, q1, s1) matches EncoderSettings::Gif { speed } ==> 1 <= speed <= 30,
{
}

} // verus!
