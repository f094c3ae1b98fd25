//! The pipeline of one call: locate the inputs, compose them, determine the
//! output format and encode the composite for it.

use crate::encode::{encoding_of, settings_of, worded, write_image_to_file};
use crate::error::{reply_text, Error};
use crate::format::{accepted_media_type, format_of, infer_format};
use crate::log::{repeated, Logger};
use crate::options::{alignment_of, filter_of, AlignmentMode, Options, ResizeFilter};
use std::time::SystemTime;
use stitchy_core::image::{DynamicImage, FilterType};
use stitchy_core::{AlignmentMode as Layout, Stitch};
use stitchy_core::{ImageFiles, ImageFilesBuilder, RawBufferLocation, RawBufferProperties};
use vstd::prelude::*;
use vstd::string::StringExecFns;

verus! {

/// A point in time of the system clock.
#[verifier::external_type_specification]
#[verifier::external_body]
pub struct ExSystemTime(SystemTime);

/// The images located so far: a builder of a set of image files whose
/// contents are held in memory.
#[verifier::external_body]
pub struct BufferSetBuilder<'a> {
    inner: ImageFilesBuilder<RawBufferProperties<'a>, RawBufferLocation<'a>>,
}

/// The located images of one call: a finished set of image files whose
/// contents are held in memory.
#[verifier::external_body]
pub struct BufferSet<'a> {
    inner: ImageFiles<RawBufferProperties<'a>>,
}

/// The files staged in a builder, in the order of their addition: the bytes
/// and the media type of each.
pub uninterp spec fn staged_files(builder: BufferSetBuilder<'_>) -> Seq<(Seq<u8>, Seq<char>)>;

/// The files of a finished set, in order: the bytes and the media type of each.
pub uninterp spec fn located_images(files: BufferSet<'_>) -> Seq<(Seq<u8>, Seq<char>)>;

/// The time stored with each file staged in a builder, in the same order.
pub uninterp spec fn staged_times(builder: BufferSetBuilder<'_>) -> Seq<SystemTime>;

/// `ImageFiles::builder`: a builder with no files.
#[verifier::external_body]
fn new_image_set<'a>() -> (builder: BufferSetBuilder<'a>)
    ensures
        staged_files(builder) == Seq::<(Seq<u8>, Seq<char>)>::empty(),
        staged_times(builder) == Seq::<SystemTime>::empty(),
{
    BufferSetBuilder { inner: ImageFiles::builder() }
}

/// `SystemTime::now`: the time of the system clock. Nothing is known of it.
#[verifier::external_body]
fn capture_time() -> (now: SystemTime) {
    SystemTime::now()
}

/// `RawBufferLocation::new` and `ImageFilesBuilder::add_file`: the buffer is
/// staged behind the files already there exactly when the text after the
/// first slash of its media type is one of the extensions that
/// `ImageFiles::allowed_extensions` lists; otherwise the call fails with a
/// description that is not empty. The time is stored with the file. The
/// bytes are not read.
#[verifier::external_body]
fn add_buffer<'a>(
    builder: BufferSetBuilder<'a>,
    buffer: &'a [u8],
    mime: String,
    now: SystemTime,
) -> (added: Result<BufferSetBuilder<'a>, String>)
    ensures
        added is Ok <==> accepted_media_type(mime@),
        added matches Ok(b) ==> staged_files(b) == staged_files(builder).push((buffer@, mime@)),
        added matches Ok(b) ==> staged_times(b) == staged_times(builder).push(now),
        added matches Err(e) ==> e@.len() > 0,
{
    let inner = builder.inner.add_file(RawBufferLocation::new(buffer, mime, now))?;
    Ok(BufferSetBuilder { inner })
}

/// `ImageFilesBuilder::build`: for buffers it always succeeds, and the set
/// holds the staged files in their order.
#[verifier::external_body]
fn build_image_set<'a>(
    builder: BufferSetBuilder<'a>,
) -> (built: Result<BufferSet<'a>, String>)
    ensures
        built is Ok,
        built matches Ok(files) ==> located_images(files) == staged_files(builder),
{
    let inner = builder.inner.build()?;
    Ok(BufferSet { inner })
}

/// What the compositor is asked for.
#[derive(Clone, Copy, Debug, PartialEq, Eq, Structural)]
pub struct StitchRequest {
    pub alignment: AlignmentMode,
    /// Limit on the composite's width; 0 means none.
    pub width_limit: u32,
    /// Limit on the composite's height; 0 means none.
    pub height_limit: u32,
    pub resize_filter: ResizeFilter,
}

/// The request that a set of options stands for: the layout of its direction
/// flags, its two limits as they are, and the filter of its `fast` flag.
pub open spec fn request_of(options: Options) -> StitchRequest {
    StitchRequest {
        alignment: alignment_of(options.horizontal, options.vertical),
        width_limit: options.maxw,
        height_limit: options.maxh,
        resize_filter: filter_of(options.fast),
    }
}

/// Turns the options into the request handed to the compositor.
pub fn stitch_request(options: &Options) -> (request: StitchRequest)
    ensures
        request == request_of(*options),
{
    StitchRequest {
        alignment: options.get_alignment(),
        width_limit: options.maxw,
        height_limit: options.maxh,
        resize_filter: options.get_resize_filter(),
    }
}

/// What the compositor makes of a set of files, each given by its bytes and
/// its media type, for a request: the composite, or the description of its
/// failure. It reads nothing but the two; the times of the files play no part.
pub uninterp spec fn composition(files: Seq<(Seq<u8>, Seq<char>)>, request: StitchRequest) -> Result<
    DynamicImage,
    Seq<char>,
>;

/// A compositor's outcome with its failure as plain text.
pub open spec fn composed_view(composite: Result<DynamicImage, String>) -> Result<
    DynamicImage,
    Seq<char>,
> {
    match composite {
        Ok(image) => Ok(image),
        Err(e) => Err(e@),
    }
}

/// The `StitchBuilder` chain from `Stitch::builder` to `stitch`: decodes the
/// files and composes them in their order, as the request asks. The outcome
/// is what the compositor makes of these files for this request. Of an empty
/// set it fails with "No images to stitch".
#[verifier::external_body]
fn compose<'a>(files: BufferSet<'a>, request: StitchRequest) -> (composite: Result<
    DynamicImage,
    String,
>)
    ensures
        composed_view(composite) == composition(located_images(files), request),
        composite is Ok ==> located_images(files).len() > 0,
        composite matches Err(e) ==> located_images(files).len() == 0 ==> e@
            == "No images to stitch"@,
{
    let layout = match request.alignment {
        AlignmentMode::Grid => Layout::Grid,
        AlignmentMode::Horizontal => Layout::Horizontal,
        AlignmentMode::Vertical => Layout::Vertical,
    };
    let resize = match request.resize_filter {
        ResizeFilter::Nearest => FilterType::Nearest,
        ResizeFilter::Lanczos3 => FilterType::Lanczos3,
    };
    let builder = Stitch::builder().alignment(layout).width_limit(request.width_limit);
    let builder = builder.height_limit(request.height_limit).resize_filter(resize);
    builder.image_files(files.inner)?.stitch()
}

/// The line emitted for each located image.
pub open spec fn file_added_line() -> Seq<char> {
    "File added to ImageFiles"@
}

/// The line emitted once the composite exists.
pub open spec fn stitch_completed_line() -> Seq<char> {
    "Stitch completed"@
}

/// The message of a call whose inputs and media types differ in number.
pub open spec fn mismatch_text() -> Seq<char> {
    "Internal error: mismatch in file data"@
}

/// The message of a call whose output format cannot be determined.
pub open spec fn no_format_text() -> Seq<char> {
    "Could not determine output format"@
}

/// The line emitted once the output is written.
pub open spec fn output_written_line() -> Seq<char> {
    "Output written; Stitchy completed successfully"@
}

/// Whether every one of the media types is accepted for an input.
pub open spec fn all_accepted(mimes: Seq<String>) -> bool {
    forall|i: int| 0 <= i < mimes.len() ==> accepted_media_type(#[trigger] mimes[i]@)
}

/// Whether `k` is the index of the first media type that is not accepted.
pub open spec fn is_first_rejected(mimes: Seq<String>, k: int) -> bool {
    &&& 0 <= k < mimes.len()
    &&& !accepted_media_type(mimes[k]@)
    &&& forall|j: int| 0 <= j < k ==> accepted_media_type(#[trigger] mimes[j]@)
}

/// The media types that have an input: those at the indices below both
/// counts.
pub open spec fn reached_types(buffers: Seq<&[u8]>, mimes: Seq<String>) -> Seq<String> {
    if buffers.len() <= mimes.len() {
        mimes.take(buffers.len() as int)
    } else {
        mimes
    }
}

/// The inputs paired with their media types, in order.
pub open spec fn paired(buffers: Seq<&[u8]>, mimes: Seq<String>) -> Seq<(Seq<u8>, Seq<char>)> {
    Seq::new(buffers.len(), |i: int| (buffers[i]@, mimes[i]@))
}

/// Locates the inputs: pairs each buffer with the media type at its index and
/// the one time of the call, in order, and emits a line for each one located.
///
/// The inputs are taken index by index, and the first index at which
/// something is wrong ends the call, after a line for each input before it:
/// a media type that is not accepted, or, where buffers and media types
/// differ in number, the first index that one of the two lacks.
pub fn locate_images<'a>(
    logger: &mut Logger,
    input_buffers: &Vec<&'a [u8]>,
    input_mimes: &Vec<String>,
    now: SystemTime,
) -> (located: Result<BufferSetBuilder<'a>, Error>)
    ensures
        final(logger).tag == old(logger).tag,
        !all_accepted(reached_types(input_buffers@, input_mimes@)) ==> {
            &&& located matches Err(Error::Unknown(m)) && m@.len() > 0
            &&& exists|k: int|
                is_first_rejected(reached_types(input_buffers@, input_mimes@), k)
                    && final(logger).emitted() == old(logger).emitted() + repeated(
                    file_added_line(),
                    k as nat,
                )
        },
        all_accepted(reached_types(input_buffers@, input_mimes@)) && input_buffers@.len()
            != input_mimes@.len() ==> {
            &&& located matches Err(Error::Unknown(m)) && m@ == mismatch_text()
            &&& final(logger).emitted() == old(logger).emitted() + repeated(
                file_added_line(),
                reached_types(input_buffers@, input_mimes@).len(),
            )
        },
        all_accepted(reached_types(input_buffers@, input_mimes@)) && input_buffers@.len()
            == input_mimes@.len() ==> {
            &&& located matches Ok(b) && staged_files(b) == paired(input_buffers@, input_mimes@)
                && staged_times(b) == Seq::new(input_buffers@.len(), |i: int| now)
            &&& final(logger).emitted() == old(logger).emitted() + repeated(
                file_added_line(),
                input_mimes@.len(),
            )
        },
{
    let n = input_buffers.len();
    let m = input_mimes.len();
    let ghost reached = reached_types(input_buffers@, input_mimes@);
    let mut builder = new_image_set();
    let mut i: usize = 0;
    assert(logger.emitted() =~= old(logger).emitted() + repeated(file_added_line(), 0));
    while i < n
        invariant
            n == input_buffers@.len(),
            m == input_mimes@.len(),
            reached == reached_types(input_buffers@, input_mimes@),
            i <= n,
            i <= m,
            logger.tag == old(logger).tag,
            staged_files(builder) == Seq::new(
                i as nat,
                |k: int| (input_buffers@[k]@, input_mimes@[k]@),
            ),
            staged_times(builder) == Seq::new(i as nat, |k: int| now),
            forall|j: int| 0 <= j < i ==> accepted_media_type(#[trigger] input_mimes@[j]@),
            logger.emitted() == old(logger).emitted() + repeated(file_added_line(), i as nat),
        decreases n - i,
    {
        if i >= m {
            assert(reached == input_mimes@);
            return Err(Error::Unknown(String::from_str("Internal error: mismatch in file data")));
        }
        let buffer: &'a [u8] = input_buffers[i];
        let mime = input_mimes[i].clone();
        match add_buffer(builder, buffer, mime, now) {
            Ok(b) => {
                builder = b;
            },
            Err(e) => {
                assert(reached[i as int] == input_mimes@[i as int]);
                assert(forall|j: int| 0 <= j < i ==> reached[j] == input_mimes@[j]);
                assert(is_first_rejected(reached, i as int));
                return Err(Error::Unknown(e));
            },
        }
        let ghost before = logger.emitted();
        logger.log_message("File added to ImageFiles");
        assert(before.push(file_added_line()) =~= old(logger).emitted() + repeated(
            file_added_line(),
            (i + 1) as nat,
        ));
        assert(staged_files(builder) =~= Seq::new(
            (i + 1) as nat,
            |k: int| (input_buffers@[k]@, input_mimes@[k]@),
        ));
        assert(staged_times(builder) =~= Seq::new((i + 1) as nat, |k: int| now));
        i += 1;
    }
    assert(reached.len() == n);
    assert(forall|j: int| 0 <= j < n ==> reached[j] == input_mimes@[j]);
    assert(all_accepted(reached));
    if n < m {
        return Err(Error::Unknown(String::from_str("Internal error: mismatch in file data")));
    }
    assert(staged_files(builder) =~= paired(input_buffers@, input_mimes@));
    Ok(builder)
}

/// What the compositor's outcome becomes: the composite, or an error of no
/// kind with the compositor's description.
pub fn stitch_outcome(logger: &mut Logger, composite: Result<DynamicImage, String>) -> (outcome:
    Result<DynamicImage, Error>)
    ensures
        final(logger).tag == old(logger).tag,
        composite matches Ok(image) ==> {
            &&& outcome == Ok::<DynamicImage, Error>(image)
            &&& final(logger).emitted() == old(logger).emitted().push(stitch_completed_line())
        },
        composite matches Err(e) ==> {
            &&& outcome matches Err(Error::Unknown(m)) && m@ == e@
            &&& final(logger).emitted() == old(logger).emitted()
        },
{
    match composite {
        Ok(image) => {
            logger.log_message("Stitch completed");
            Ok(image)
        },
        Err(e) => Err(Error::Unknown(e)),
    }
}

/// Composes the located images as the options ask, in their order: the
/// outcome is what the compositor makes of the staged files for the request
/// of the options. A composite is followed by one emitted line; a failure of
/// the compositor becomes an error of no kind with its description. Nothing
/// to compose is such a failure.
pub fn stitch_images<'a>(logger: &mut Logger, options: &Options, builder: BufferSetBuilder<'a>) -> (
    outcome: Result<DynamicImage, Error>)
    ensures
        final(logger).tag == old(logger).tag,
        composition(staged_files(builder), request_of(*options)) matches Ok(image) ==> {
            &&& outcome == Ok::<DynamicImage, Error>(image)
            &&& final(logger).emitted() == old(logger).emitted().push(stitch_completed_line())
        },
        composition(staged_files(builder), request_of(*options)) matches Err(text) ==> {
            &&& outcome matches Err(Error::Unknown(m)) && m@ == text
            &&& final(logger).emitted() == old(logger).emitted()
        },
        staged_files(builder).len() == 0 ==> composition(
            staged_files(builder),
            request_of(*options),
        ) == Err::<DynamicImage, Seq<char>>("No images to stitch"@),
{
    let files = match build_image_set(builder) {
        Ok(files) => files,
        Err(e) => {
            return Err(Error::Unknown(e));
        },
    };
    let request = stitch_request(options);
    let composite = compose(files, request);
    stitch_outcome(logger, composite)
}

/// Locates the inputs at the time of the call and composes them: the first
/// half of a call, up to the composite.
///
/// The inputs are located index by index, as `locate_images` says, and a
/// fault there ends the call. Otherwise the outcome is what the compositor
/// makes of the inputs, paired in order with their media types, for the
/// request of the options.
pub fn stitch_inputs<'a>(
    logger: &mut Logger,
    options: &Options,
    input_buffers: &Vec<&'a [u8]>,
    input_mimes: &Vec<String>,
) -> (composite: Result<DynamicImage, Error>)
    ensures
        final(logger).tag == old(logger).tag,
        composite matches Err(e) ==> e is Unknown,
        !all_accepted(reached_types(input_buffers@, input_mimes@)) ==> {
            &&& composite matches Err(Error::Unknown(m)) && m@.len() > 0
            &&& exists|k: int|
                is_first_rejected(reached_types(input_buffers@, input_mimes@), k)
                    && final(logger).emitted() == old(logger).emitted() + repeated(
                    file_added_line(),
                    k as nat,
                )
        },
        all_accepted(reached_types(input_buffers@, input_mimes@)) && input_buffers@.len()
            != input_mimes@.len() ==> {
            &&& composite matches Err(Error::Unknown(m)) && m@ == mismatch_text()
            &&& final(logger).emitted() == old(logger).emitted() + repeated(
                file_added_line(),
                reached_types(input_buffers@, input_mimes@).len(),
            )
        },
        all_accepted(reached_types(input_buffers@, input_mimes@)) && input_buffers@.len()
            == input_mimes@.len() ==> match composition(
            paired(input_buffers@, input_mimes@),
            request_of(*options),
        ) {
            Ok(image) => {
                &&& composite == Ok::<DynamicImage, Error>(image)
                &&& final(logger).emitted() == (old(logger).emitted() + repeated(
                    file_added_line(),
                    input_mimes@.len(),
                )).push(stitch_completed_line())
            },
            Err(text) => {
                &&& composite matches Err(Error::Unknown(m)) && m@ == text
                &&& final(logger).emitted() == old(logger).emitted() + repeated(
                    file_added_line(),
                    input_mimes@.len(),
                )
            },
        },
        input_buffers@.len() == 0 && input_mimes@.len() == 0 ==> {
            &&& composite matches Err(Error::Unknown(m)) && m@ == "No images to stitch"@
            &&& final(logger).emitted() == old(logger).emitted()
        },
{
    let now = capture_time();
    let builder = match locate_images(logger, input_buffers, input_mimes, now) {
        Ok(builder) => builder,
        Err(e) => {
            return Err(e);
        },
    };
    assert(input_buffers@.len() == 0 ==> old(logger).emitted() + repeated(file_added_line(), 0)
        =~= old(logger).emitted());
    stitch_images(logger, options, builder)
}

/// A pipeline's result as plain values: the bytes, or the text of the error.
pub open spec fn result_view(result: Result<Vec<u8>, Error>) -> Result<Seq<u8>, Seq<char>> {
    match result {
        Ok(bytes) => Ok(bytes@),
        Err(e) => Err(e.detail()),
    }
}

/// What encoding a composite for an output gives: without a format for the
/// output's media type, the text that says so; otherwise what the format's
/// encoder makes of the composite with the options' settings for it, a
/// failure worded.
pub open spec fn encoded_output(image: DynamicImage, options: Options, output_mime: Seq<char>) -> Result<
    Seq<u8>,
    Seq<char>,
> {
    match format_of(output_mime) {
        None => Err(no_format_text()),
        Some(format) => worded(
            encoding_of(image, settings_of(format, options.quality, options.small)),
        ),
    }
}

/// What stitching a set of files for an output gives: the compositor's
/// failure, or its composite encoded for the output.
pub open spec fn stitched_output(
    files: Seq<(Seq<u8>, Seq<char>)>,
    options: Options,
    output_mime: Seq<char>,
) -> Result<Seq<u8>, Seq<char>> {
    match composition(files, request_of(options)) {
        Ok(image) => encoded_output(image, options, output_mime),
        Err(text) => Err(text),
    }
}

/// Encodes the composite for the output: determines the format from the
/// output's media type and encodes with the options' settings for it. An
/// output whose media type names no format is an error, and nothing is
/// encoded. Every error is of no kind.
pub fn encode_composite(image: DynamicImage, options: &Options, output_mime: &str) -> (encoded:
    Result<Vec<u8>, Error>)
    ensures
        result_view(encoded) == encoded_output(image, *options, output_mime@),
        encoded matches Err(e) ==> e is Unknown,
{
    let format = match infer_format(output_mime) {
        Some(format) => format,
        None => {
            return Err(Error::Unknown(String::from_str("Could not determine output format")));
        },
    };
    match write_image_to_file(image, format, options.quality, options.small) {
        Ok(bytes) => Ok(bytes),
        Err(e) => Err(Error::Unknown(e)),
    }
}

/// Closes the call once the output has been handed to its sink: a write that
/// went through is followed by one emitted line; a write that failed becomes
/// an error of no kind, worded as "Failed to generate output file - " and the
/// description of the failure.
pub fn output_written(logger: &mut Logger, written: Result<(), String>) -> (outcome: Result<
    (),
    Error,
>)
    ensures
        final(logger).tag == old(logger).tag,
        written is Ok ==> {
            &&& outcome is Ok
            &&& final(logger).emitted() == old(logger).emitted().push(output_written_line())
        },
        written matches Err(e) ==> {
            &&& outcome matches Err(Error::Unknown(m)) && m@
                == "Failed to generate output file - "@ + e@
            &&& final(logger).emitted() == old(logger).emitted()
        },
{
    match written {
        Ok(()) => {
            logger.log_message("Output written; Stitchy completed successfully");
            Ok(())
        },
        Err(e) => Err(
            Error::Unknown(
                String::from_str("Failed to generate output file - ").concat(e.as_str()),
            ),
        ),
    }
}

/// One stitching call from the inputs to the encoded output: locates the
/// inputs at the time of the call, composes them, and encodes the composite
/// for the output's media type. The bytes handed back are the whole output;
/// on an error there are none.
///
/// The inputs are located index by index, as `locate_images` says, and a
/// fault there ends the call. Otherwise the result is what the compositor
/// makes of the inputs, paired in order with their media types, for the
/// request of the options, encoded for the output's media type with the
/// options' settings. The emitted lines tell how far the call came.
pub fn run_stitchy<'a>(
    logger: &mut Logger,
    options: Options,
    input_buffers: Vec<&'a [u8]>,
    input_mimes: Vec<String>,
    output_mime: String,
) -> (output: Result<Vec<u8>, Error>)
    ensures
        final(logger).tag == old(logger).tag,
        output matches Err(e) ==> e is Unknown,
        !all_accepted(reached_types(input_buffers@, input_mimes@)) ==> {
            &&& output matches Err(Error::Unknown(m)) && m@.len() > 0
            &&& exists|k: int|
                is_first_rejected(reached_types(input_buffers@, input_mimes@), k)
                    && final(logger).emitted() == old(logger).emitted() + repeated(
                    file_added_line(),
                    k as nat,
                )
        },
        all_accepted(reached_types(input_buffers@, input_mimes@)) && input_buffers@.len()
            != input_mimes@.len() ==> {
            &&& output matches Err(Error::Unknown(m)) && m@ == mismatch_text()
            &&& final(logger).emitted() == old(logger).emitted() + repeated(
                file_added_line(),
                reached_types(input_buffers@, input_mimes@).len(),
            )
        },
        all_accepted(reached_types(input_buffers@, input_mimes@)) && input_buffers@.len()
            == input_mimes@.len() ==> {
            &&& result_view(output) == stitched_output(
                paired(input_buffers@, input_mimes@),
                options,
                output_mime@,
            )
            &&& final(logger).emitted() == if composition(
                paired(input_buffers@, input_mimes@),
                request_of(options),
            ) is Ok {
                (old(logger).emitted() + repeated(file_added_line(), input_mimes@.len())).push(
                    stitch_completed_line(),
                )
            } else {
                old(logger).emitted() + repeated(file_added_line(), input_mimes@.len())
            }
        },
        input_buffers@.len() != input_mimes@.len() ==> (output matches Err(Error::Unknown(m))
            && m@.len() > 0),
        input_buffers@.len() == 0 && input_mimes@.len() == 0 ==> {
            &&& output matches Err(Error::Unknown(m)) && m@ == "No images to stitch"@
            &&& final(logger).emitted() == old(logger).emitted()
        },
        format_of(output_mime@) is None ==> output is Err,
{
    proof {
        reveal_strlit("Internal error: mismatch in file data");
    }
    let image = match stitch_inputs(logger, &options, &input_buffers, &input_mimes) {
        Ok(image) => image,
        Err(e) => {
            return Err(e);
        },
    };
    encode_composite(image, &options, output_mime.as_str())
}

/// A failure worded by the pipeline itself never looks like success to the
/// host: its reply is not empty.
pub proof fn lemma_pipeline_failures_are_visible(e: Error)
    requires
        e matches Error::Unknown(m) && (m@ == mismatch_text() || m@ == no_format_text() || m@
            == "No images to stitch"@),
    ensures
        reply_text(Err(e)).len() > 0,
{
    reveal_strlit("Internal error: mismatch in file data");
    reveal_strlit("Could not determine output format");
    reveal_strlit("No images to stitch");
}

} // verus!
