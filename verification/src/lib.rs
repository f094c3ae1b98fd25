//! Stitching of several encoded images into one composite, driven by plain
//! values: a set of options, the encoded inputs with their media types, and the
//! media type of the output. The result is the encoded composite, or one
//! classified error that renders to a single message.

pub mod encode;
pub mod error;
pub mod format;
pub mod log;
pub mod options;
pub mod stitch;

pub use encode::{encoder_settings, write_image_to_file, EncoderSettings, PngCompression};
pub use error::{boundary_reply, Error};
pub use format::{infer_format, OutputFormat};
pub use log::Logger;
pub use options::{AlignmentMode, Options, ResizeFilter};
pub use stitch::{
    encode_composite, locate_images, output_written, run_stitchy, stitch_images, stitch_inputs,
    stitch_request, StitchRequest,
};
