//! Media types and the output formats they name.

use vstd::prelude::*;
use vstd::string::StringExecFns;

verus! {

/// The extensions that a set of image files accepts.
pub open spec fn known_extension(ext: Seq<char>) -> bool {
    ext == "jpg"@ || ext == "jpeg"@ || ext == "png"@ || ext == "gif"@ || ext == "bmp"@ || ext
        == "webp"@
}

/// Whether a declared media type is accepted for an input: what follows its
/// first slash is a known extension.
pub open spec fn accepted_media_type(mime: Seq<char>) -> bool {
    exists|i: int|
        0 <= i < mime.len() && #[trigger] mime[i] == '/' && !mime.take(i).contains('/')
            && known_extension(mime.skip(i + 1))
}

/// The raster formats that the output can have.
#[derive(Clone, Copy, Debug, PartialEq, Eq, Structural)]
pub enum OutputFormat {
    Jpeg,
    Png,
    Gif,
    Bmp,
    WebP,
}

/// The format that a media type names, if it names one.
pub open spec fn format_of(mime: Seq<char>) -> Option<OutputFormat> {
    if mime == "image/jpeg"@ {
        Some(OutputFormat::Jpeg)
    } else if mime == "image/png"@ {
        Some(OutputFormat::Png)
    } else if mime == "image/gif"@ {
        Some(OutputFormat::Gif)
    } else if mime == "image/bmp"@ {
        Some(OutputFormat::Bmp)
    } else if mime == "image/webp"@ {
        Some(OutputFormat::WebP)
    } else {
        None
    }
}

/// Whether two strings hold the same text.
fn same_text(a: &str, b: &str) -> (same: bool)
    ensures
        same == (a@ == b@),
{
    String::from_str(a) == String::from_str(b)
}

/// Determines the output format from the media type of the output. Only the
/// five known media types name a format; there is no default.
pub fn infer_format(mime: &str) -> (format: Option<OutputFormat>)
    ensures
        format == format_of(mime@),
{
    if same_text(mime, "image/jpeg") {
        Some(OutputFormat::Jpeg)
    } else if same_text(mime, "image/png") {
        Some(OutputFormat::Png)
    } else if same_text(mime, "image/gif") {
        Some(OutputFormat::Gif)
    } else if same_text(mime, "image/bmp") {
        Some(OutputFormat::Bmp)
    } else if same_text(mime, "image/webp") {
        Some(OutputFormat::WebP)
    } else {
        None
    }
}

/// Every media type that names an output format is accepted for an input.
pub proof fn lemma_format_media_types_are_accepted(mime: Seq<char>)
    requires
        format_of(mime) is Some,
    ensures
        accepted_media_type(mime),
{
    reveal_strlit("image/jpeg");
    reveal_strlit("image/png");
    reveal_strlit("image/gif");
    reveal_strlit("image/bmp");
    reveal_strlit("image/webp");
    reveal_strlit("jpg");
    reveal_strlit("jpeg");
    reveal_strlit("png");
    reveal_strlit("gif");
    reveal_strlit("bmp");
    reveal_strlit("webp");
    assert(mime[5] == '/');
    assert(!mime.take(5).contains('/'));
    if mime == "image/jpeg"@ {
        assert(mime.skip(6) =~= "jpeg"@);
    } else if mime == "image/png"@ {
        assert(mime.skip(6) =~= "png"@);
    } else if mime == "image/gif"@ {
        assert(mime.skip(6) =~= "gif"@);
    } else if mime == "image/bmp"@ {
        assert(mime.skip(6) =~= "bmp"@);
    } else {
        assert(mime.skip(6) =~= "webp"@);
    }
}

} // verus!
