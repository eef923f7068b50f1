//! Type Classifier: resolves an authoritative content type for an upload
//! from the caller-declared content type and, failing that, from the
//! declared filename's extension. Neither source is trusted; the raw bytes
//! are only sniffed later, by the decode step of the transcode engine.

use vstd::prelude::*;
use vstd::string::*;
use crate::text::{spec_ends_with_ci, ends_with_ci, str_eq};

verus! {

/// The pipeline's own determination of an upload's type.
///
/// `Unknown` covers both content types that the validation guard rejects
/// outright and the generic binary placeholder (`application/octet-stream`)
/// that is accepted provisionally and resolved by byte sniffing at decode
/// time.
#[derive(Clone, Copy, Debug, PartialEq, Eq)]
pub enum ResolvedMediaType {
    Jpeg,
    Png,
    Gif,
    Webp,
    Svg,
    Unknown,
}

/// Content type inferred from a filename's extension alone.
pub open spec fn spec_infer_from_filename(filename: Seq<char>) -> Seq<char> {
    if spec_ends_with_ci(filename, ".jpg"@) || spec_ends_with_ci(filename, ".jpeg"@) {
        "image/jpeg"@
    } else if spec_ends_with_ci(filename, ".png"@) {
        "image/png"@
    } else if spec_ends_with_ci(filename, ".gif"@) {
        "image/gif"@
    } else if spec_ends_with_ci(filename, ".webp"@) {
        "image/webp"@
    } else if spec_ends_with_ci(filename, ".svg"@) {
        "image/svg+xml"@
    } else {
        "application/octet-stream"@
    }
}

/// The resolved content type: the declared one verbatim when present,
/// otherwise the one inferred from the filename.
pub open spec fn spec_classify(declared: Option<Seq<char>>, filename: Seq<char>) -> Seq<char> {
    match declared {
        Some(ct) => ct,
        None => spec_infer_from_filename(filename),
    }
}

/// The upload is treated as SVG: by content type or by file extension.
pub open spec fn spec_is_svg(content_type: Seq<char>, filename: Seq<char>) -> bool {
    content_type == "image/svg+xml"@ || spec_ends_with_ci(filename, ".svg"@)
}

/// The upload is treated as GIF: by content type or by file extension.
pub open spec fn spec_is_gif(content_type: Seq<char>, filename: Seq<char>) -> bool {
    content_type == "image/gif"@ || spec_ends_with_ci(filename, ".gif"@)
}

/// The resolved media type of an upload. SVG and GIF take precedence, since
/// either the content type or the filename alone commits the pipeline to
/// the passthrough path.
pub open spec fn spec_resolve(content_type: Seq<char>, filename: Seq<char>) -> ResolvedMediaType {
    if spec_is_svg(content_type, filename) {
        ResolvedMediaType::Svg
    } else if spec_is_gif(content_type, filename) {
        ResolvedMediaType::Gif
    } else if content_type == "image/jpeg"@ {
        ResolvedMediaType::Jpeg
    } else if content_type == "image/png"@ {
        ResolvedMediaType::Png
    } else if content_type == "image/webp"@ {
        ResolvedMediaType::Webp
    } else {
        ResolvedMediaType::Unknown
    }
}

/// Resolve the content type of an upload: the declared content type is used
/// verbatim when present; otherwise it is inferred from the filename's
/// extension, case-insensitively; a filename with no recognized extension
/// yields the generic binary placeholder.
pub fn classify_content_type(declared: Option<&str>, filename: &str) -> (r: String)
    ensures
        r@ == spec_classify(declared.deep_view(), filename@),
{
    match declared {
        Some(ct) => ct.to_owned(),
        None => {
            if ends_with_ci(filename, ".jpg") || ends_with_ci(filename, ".jpeg") {
                "image/jpeg".to_owned()
            } else if ends_with_ci(filename, ".png") {
                "image/png".to_owned()
            } else if ends_with_ci(filename, ".gif") {
                "image/gif".to_owned()
            } else if ends_with_ci(filename, ".webp") {
                "image/webp".to_owned()
            } else if ends_with_ci(filename, ".svg") {
                "image/svg+xml".to_owned()
            } else {
                "application/octet-stream".to_owned()
            }
        },
    }
}

/// The upload is stored as SVG without processing.
pub fn is_svg_upload(content_type: &str, filename: &str) -> (r: bool)
    ensures
        r == spec_is_svg(content_type@, filename@),
{
    str_eq(content_type, "image/svg+xml") || ends_with_ci(filename, ".svg")
}

/// The upload is stored as GIF without processing.
pub fn is_gif_upload(content_type: &str, filename: &str) -> (r: bool)
    ensures
        r == spec_is_gif(content_type@, filename@),
{
    str_eq(content_type, "image/gif") || ends_with_ci(filename, ".gif")
}

/// Resolve the media type of an upload from its resolved content type and
/// its declared filename.
pub fn resolve_media_type(content_type: &str, filename: &str) -> (r: ResolvedMediaType)
    ensures
        r == spec_resolve(content_type@, filename@),
{
    if is_svg_upload(content_type, filename) {
        ResolvedMediaType::Svg
    } else if is_gif_upload(content_type, filename) {
        ResolvedMediaType::Gif
    } else if str_eq(content_type, "image/jpeg") {
        ResolvedMediaType::Jpeg
    } else if str_eq(content_type, "image/png") {
        ResolvedMediaType::Png
    } else if str_eq(content_type, "image/webp") {
        ResolvedMediaType::Webp
    } else {
        ResolvedMediaType::Unknown
    }
}

} // verus!
