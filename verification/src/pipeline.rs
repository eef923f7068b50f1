//! The upload pipeline: select the file-bearing part, resolve its type,
//! enforce policy, then either pass the bytes through unchanged (SVG, GIF)
//! or transcode them to WEBP, and assign the stored artifact its unique
//! filename and public URL.

use vstd::prelude::*;
use vstd::string::*;
use crate::guard::{MAX_UPLOAD_BYTES, UploadError, spec_type_allowed, validate_upload};
use crate::media_type::{
    classify_content_type, is_gif_upload, is_svg_upload, spec_classify, spec_is_gif, spec_is_svg,
};
use crate::storage::{fresh_token, make_filename, public_url};
use crate::text::str_eq;
use crate::transcode::{
    spec_decoded_dims, spec_encoder_accepts, spec_output_image, spec_target_dims, spec_webp_bytes,
    transcode_to_webp,
};

verus! {

/// One logical file submission pulled out of a multipart request: the form
/// field identifier, the caller-declared filename and content type (both
/// untrusted; the filename defaults to the sentinel `unknown`, the field
/// name to the empty string), and the payload.
pub struct UploadField {
    pub name: String,
    pub filename: String,
    pub content_type: Option<String>,
    pub bytes: Vec<u8>,
}

/// A part qualifies as a file upload when it carries a non-empty field name
/// or a filename other than the sentinel.
pub open spec fn spec_qualifies(field: UploadField) -> bool {
    field.name@.len() > 0 || field.filename@ != "unknown"@
}

/// Whether a part qualifies as the file upload to process.
pub fn field_qualifies(field: &UploadField) -> (r: bool)
    ensures
        r == spec_qualifies(*field),
{
    !field.name.as_str().is_empty() || !str_eq(field.filename.as_str(), "unknown")
}

/// A normalized artifact ready to be persisted: its generated filename and
/// public URL, the bytes to write, the extension of the final encoding,
/// and, for transcoded raster images, the decoded input dimensions and the
/// stored output dimensions.
pub struct PreparedUpload {
    pub filename: String,
    pub url: String,
    pub extension: String,
    pub bytes: Vec<u8>,
    pub input_width: Option<u32>,
    pub input_height: Option<u32>,
    pub width: Option<u32>,
    pub height: Option<u32>,
}

/// The content type the classifier resolves for a field.
pub open spec fn spec_resolved_ct(field: UploadField) -> Seq<char> {
    spec_classify(field.content_type.deep_view(), field.filename@)
}

/// The field passes the validation guard: allowed type, size in bounds.
pub open spec fn spec_guard_ok(field: UploadField) -> bool {
    &&& spec_type_allowed(spec_resolved_ct(field))
    &&& 0 < field.bytes@.len() <= MAX_UPLOAD_BYTES
}

/// Everything preparing one upload field promises, whatever token names the
/// artifact: exactly which error comes out of the guard and when; that SVG
/// and GIF payloads are stored byte-identical under their fixed extension;
/// that a raster payload is stored as the WEBP encoding of its (possibly
/// resized) decoded image at the planned dimensions, succeeding exactly
/// when the payload decodes and the planned dimensions fit the encoder,
/// with decode or encode failure reported as such; and that the URL is the
/// deterministic function of the filename.
pub open spec fn spec_prepare_post(
    field: UploadField,
    r: Result<PreparedUpload, UploadError>,
) -> bool {
    let ct = spec_resolved_ct(field);
    let size = field.bytes@.len();
    &&& (!spec_type_allowed(ct) ==> (r matches Err(e) && e matches UploadError::UnsupportedType(t)
        && t@ == ct))
    &&& (spec_type_allowed(ct) && size > MAX_UPLOAD_BYTES ==> r == Err::<
        PreparedUpload,
        UploadError,
    >(UploadError::PayloadTooLarge))
    &&& (spec_type_allowed(ct) && size == 0 ==> r == Err::<PreparedUpload, UploadError>(
        UploadError::EmptyPayload,
    ))
    &&& (spec_guard_ok(field) && spec_is_svg(ct, field.filename@) ==> (r matches Ok(p)
        && p.bytes@ == field.bytes@ && p.extension@ == "svg"@ && p.width is None
        && p.height is None && p.input_width is None && p.input_height is None))
    &&& (spec_guard_ok(field) && !spec_is_svg(ct, field.filename@) && spec_is_gif(
        ct,
        field.filename@,
    ) ==> (r matches Ok(p) && p.bytes@ == field.bytes@ && p.extension@ == "gif"@
        && p.width is None && p.height is None && p.input_width is None
        && p.input_height is None))
    &&& (spec_guard_ok(field) && !spec_is_svg(ct, field.filename@) && !spec_is_gif(
        ct,
        field.filename@,
    ) ==> {
        &&& (r matches Ok(p) ==> (p.input_width matches Some(iw) && p.input_height matches Some(
            ih,
        ) && p.width matches Some(ow) && p.height matches Some(oh) && spec_output_image(
            field.bytes@,
        ) matches Some(out) && p.extension@ == "webp"@ && (ow, oh) == spec_target_dims(iw, ih)
            && spec_decoded_dims(field.bytes@) == Some((iw, ih)) && p.bytes@ == spec_webp_bytes(
            out,
        )))
        &&& (r matches Err(e) ==> (e is DecodeError || e is EncodeError))
        &&& (spec_decoded_dims(field.bytes@) is None <==> (r matches Err(e) && e is DecodeError))
        &&& (r is Ok <==> (spec_decoded_dims(field.bytes@) matches Some(d) && spec_encoder_accepts(
            spec_target_dims(d.0, d.1).0,
            spec_target_dims(d.0, d.1).1,
        )))
    })
    &&& (r matches Ok(p) ==> p.url@ == "/uploads/"@ + p.filename@)
}

/// Prepare one upload field under the given naming token: resolve the
/// content type, enforce the guard, pass SVG and GIF payloads through
/// unchanged, transcode everything else to WEBP, and name the artifact
/// `<token>.<extension>`.
pub fn prepare_with_token(field: UploadField, token: &str) -> (r: Result<
    PreparedUpload,
    UploadError,
>)
    ensures
        spec_prepare_post(field, r),
        r matches Ok(p) ==> p.filename@ == token@ + "."@ + p.extension@,
{
    let ct = match &field.content_type {
        Some(s) => classify_content_type(Some(s.as_str()), field.filename.as_str()),
        None => classify_content_type(None, field.filename.as_str()),
    };
    match validate_upload(ct.as_str(), field.bytes.len()) {
        Err(e) => Err(e),
        Ok(()) => {
            if is_svg_upload(ct.as_str(), field.filename.as_str()) {
                let filename = make_filename(token, "svg");
                let url = public_url(filename.as_str());
                Ok(
                    PreparedUpload {
                        filename,
                        url,
                        extension: "svg".to_owned(),
                        bytes: field.bytes,
                        input_width: None,
                        input_height: None,
                        width: None,
                        height: None,
                    },
                )
            } else if is_gif_upload(ct.as_str(), field.filename.as_str()) {
                let filename = make_filename(token, "gif");
                let url = public_url(filename.as_str());
                Ok(
                    PreparedUpload {
                        filename,
                        url,
                        extension: "gif".to_owned(),
                        bytes: field.bytes,
                        input_width: None,
                        input_height: None,
                        width: None,
                        height: None,
                    },
                )
            } else {
                match transcode_to_webp(&field.bytes) {
                    Err(e) => Err(e),
                    Ok(t) => {
                        let filename = make_filename(token, "webp");
                        let url = public_url(filename.as_str());
                        Ok(
                            PreparedUpload {
                                filename,
                                url,
                                extension: "webp".to_owned(),
                                bytes: t.bytes,
                                input_width: Some(t.input_width),
                                input_height: Some(t.input_height),
                                width: Some(t.width),
                                height: Some(t.height),
                            },
                        )
                    },
                }
            }
        },
    }
}

/// Prepare one upload field under a fresh random token.
pub fn prepare_upload(field: UploadField) -> (r: Result<PreparedUpload, UploadError>)
    ensures
        spec_prepare_post(field, r),
        r matches Ok(p) ==> exists|t: Seq<char>|
            t.len() == 36 && p.filename@ == t + "."@ + p.extension@,
{
    let token = fresh_token();
    let r = prepare_with_token(field, token.as_str());
    proof {
        match r {
            Ok(ref p) => {
                assert(token@.len() == 36 && p.filename@ == token@ + "."@ + p.extension@);
            },
            Err(_) => {},
        }
    }
    r
}

/// Select the first qualifying part of the multipart body, in arrival
/// order; non-qualifying parts are deliberately skipped, not errors. A body
/// with no qualifying part fails with `NoFileProvided`.
pub fn extract_field(fields: Vec<UploadField>) -> (r: Result<UploadField, UploadError>)
    ensures
        r matches Ok(f) ==> exists|i: int|
            0 <= i < fields@.len() && f == fields@[i] && spec_qualifies(fields@[i]) && (forall|
                j: int,
            |
                0 <= j < i ==> !spec_qualifies(fields@[j])),
        r matches Err(e) ==> (e == UploadError::NoFileProvided && forall|i: int|
            0 <= i < fields@.len() ==> !spec_qualifies(fields@[i])),
{
    match find_qualifying(&fields) {
        Some(i) => {
            let mut work = fields;
            let f = work.remove(i);
            Ok(f)
        },
        None => Err(UploadError::NoFileProvided),
    }
}

/// The index of the first qualifying part, if any.
fn find_qualifying(fields: &Vec<UploadField>) -> (r: Option<usize>)
    ensures
        r matches Some(i) ==> (i < fields@.len() && spec_qualifies(fields@[i as int]) && (forall|
            j: int,
        |
            0 <= j < i ==> !spec_qualifies(fields@[j]))),
        r is None ==> forall|j: int| 0 <= j < fields@.len() ==> !spec_qualifies(fields@[j]),
{
    let n = fields.len();
    let mut i: usize = 0;
    while i < n
        invariant
            i <= n,
            n == fields@.len(),
            forall|j: int| 0 <= j < i ==> !spec_qualifies(fields@[j]),
        decreases n - i,
    {
        if field_qualifies(&fields[i]) {
            return Some(i);
        }
        i += 1;
    }
    None
}

/// Run the whole pipeline on the parts of one multipart request: pick the
/// first qualifying field, then prepare it under a fresh token.
pub fn process_upload(fields: Vec<UploadField>) -> (r: Result<PreparedUpload, UploadError>)
    ensures
        (forall|i: int| 0 <= i < fields@.len() ==> !spec_qualifies(fields@[i])) ==> r == Err::<
            PreparedUpload,
            UploadError,
        >(UploadError::NoFileProvided),
        (exists|i: int| 0 <= i < fields@.len() && spec_qualifies(fields@[i])) ==> exists|i: int|
            {
                &&& 0 <= i < fields@.len()
                &&& spec_qualifies(fields@[i])
                &&& (forall|j: int| 0 <= j < i ==> !spec_qualifies(fields@[j]))
                &&& spec_prepare_post(fields@[i], r)
            },
        r matches Ok(p) ==> (p.url@ == "/uploads/"@ + p.filename@ && exists|t: Seq<char>|
            t.len() == 36 && p.filename@ == t + "."@ + p.extension@),
{
    match extract_field(fields) {
        Ok(f) => prepare_upload(f),
        Err(e) => Err(e),
    }
}

} // verus!
