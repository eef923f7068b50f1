//! Validation Guard and error taxonomy: type policy first, then size
//! policy, enforced before any expensive work happens.

use vstd::prelude::*;
use vstd::string::*;
use crate::text::{spec_starts_with, starts_with, str_eq};

verus! {

/// Largest accepted payload, in bytes: 50 MiB.
pub const MAX_UPLOAD_BYTES: usize = 50 * 1024 * 1024;

/// Every way an upload request can fail. Each failure is terminal for the
/// request; nothing is retried.
#[derive(Debug, PartialEq, Eq)]
pub enum UploadError {
    /// The multipart stream ended without a qualifying file part.
    NoFileProvided,
    /// The resolved content type is neither an image type nor the generic
    /// binary placeholder; carries the rejected type.
    UnsupportedType(String),
    /// The payload is zero bytes long.
    EmptyPayload,
    /// The payload exceeds [`MAX_UPLOAD_BYTES`].
    PayloadTooLarge,
    /// The payload could not be decoded as a raster image; carries the
    /// underlying reason.
    DecodeError(String),
    /// The decoded image could not be re-encoded; carries the underlying
    /// reason.
    EncodeError(String),
    /// The artifact could not be persisted; carries the underlying reason.
    StorageWriteError(String),
}

/// The resolved content type passes the type policy: an image media type,
/// or the generic binary placeholder that decode-time sniffing resolves.
pub open spec fn spec_type_allowed(content_type: Seq<char>) -> bool {
    spec_starts_with(content_type, "image/"@) || content_type == "application/octet-stream"@
}

/// Whether a resolved content type passes the type policy. This stands on
/// its own so the type check can fail fast, before a payload is read.
pub fn type_allowed(content_type: &str) -> (r: bool)
    ensures
        r == spec_type_allowed(content_type@),
{
    starts_with(content_type, "image/") || str_eq(content_type, "application/octet-stream")
}

/// Enforce the upload policy, in order: the resolved content type must be
/// an image type or the generic binary placeholder, and the payload size
/// must lie in `(0, MAX_UPLOAD_BYTES]`.
pub fn validate_upload(content_type: &str, size: usize) -> (r: Result<(), UploadError>)
    ensures
        r is Ok <==> spec_type_allowed(content_type@) && 0 < size <= MAX_UPLOAD_BYTES,
        !spec_type_allowed(content_type@) ==> (r matches Err(e) && e matches UploadError::UnsupportedType(t)
            && t@ == content_type@),
        spec_type_allowed(content_type@) && size > MAX_UPLOAD_BYTES ==> r == Err::<(), UploadError>(
            UploadError::PayloadTooLarge,
        ),
        spec_type_allowed(content_type@) && size == 0 ==> r == Err::<(), UploadError>(
            UploadError::EmptyPayload,
        ),
{
    if !type_allowed(content_type) {
        Err(UploadError::UnsupportedType(content_type.to_owned()))
    } else if size > MAX_UPLOAD_BYTES {
        Err(UploadError::PayloadTooLarge)
    } else if size == 0 {
        Err(UploadError::EmptyPayload)
    } else {
        Ok(())
    }
}

/// The HTTP status class of an error: 400 for client-input failures, 500
/// for server-side ones.
pub fn status_code_for(e: &UploadError) -> (r: u16)
    ensures
        (e is NoFileProvided || e is UnsupportedType || e is EmptyPayload || e is PayloadTooLarge)
            ==> r == 400,
        (e is DecodeError || e is EncodeError || e is StorageWriteError) ==> r == 500,
{
    match e {
        UploadError::NoFileProvided => 400,
        UploadError::UnsupportedType(_) => 400,
        UploadError::EmptyPayload => 400,
        UploadError::PayloadTooLarge => 400,
        UploadError::DecodeError(_) => 500,
        UploadError::EncodeError(_) => 500,
        UploadError::StorageWriteError(_) => 500,
    }
}

/// The human-readable message an error surfaces to the caller.
pub fn error_message(e: &UploadError) -> (r: String)
    ensures
        e is NoFileProvided ==> r@ == "No file uploaded"@,
        e matches UploadError::UnsupportedType(t) ==> r@ == "Only image files are allowed, got: "@
            + t@,
        e is EmptyPayload ==> r@ == "Empty file"@,
        e is PayloadTooLarge ==> r@ == "File too large (max 50MB)"@,
        e matches UploadError::DecodeError(m) ==> r@ == m@,
        e matches UploadError::EncodeError(m) ==> r@ == m@,
        e matches UploadError::StorageWriteError(m) ==> r@ == m@,
{
    match e {
        UploadError::NoFileProvided => "No file uploaded".to_owned(),
        UploadError::UnsupportedType(t) => {
            let mut s = "Only image files are allowed, got: ".to_owned();
            s.append(t.as_str());
            s
        },
        UploadError::EmptyPayload => "Empty file".to_owned(),
        UploadError::PayloadTooLarge => "File too large (max 50MB)".to_owned(),
        UploadError::DecodeError(m) => m.clone(),
        UploadError::EncodeError(m) => m.clone(),
        UploadError::StorageWriteError(m) => m.clone(),
    }
}

} // verus!
