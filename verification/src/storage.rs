//! Storage Writer naming: a collision-resistant filename for each stored
//! artifact and the deterministic public URL it is served under.

use vstd::prelude::*;
use vstd::string::*;
use uuid::Uuid;

verus! {

/// Relies on `uuid::Uuid::new_v4` and the `Display` form of `Uuid`: a fresh
/// random version-4 UUID, printed hyphenated, which is always 36 characters.
/// Nothing is assumed about which token comes out, so distinctness of two
/// tokens is never promised; it holds only with overwhelming probability.
#[verifier::external_body]
pub(crate) fn fresh_token() -> (r: String)
    ensures
        r@.len() == 36,
{
    Uuid::new_v4().to_string()
}

/// The filename of a stored artifact: the unique token, a dot, and the
/// extension derived from the final encoding.
pub fn make_filename(token: &str, extension: &str) -> (r: String)
    ensures
        r@ == token@ + "."@ + extension@,
{
    let mut s = token.to_owned();
    s.append(".");
    s.append(extension);
    s
}

/// The public URL a stored artifact is served under: `/uploads/<filename>`.
pub fn public_url(filename: &str) -> (r: String)
    ensures
        r@ == "/uploads/"@ + filename@,
{
    let mut s = "/uploads/".to_owned();
    s.append(filename);
    s
}

/// Successful upload payload returned to the caller: the artifact's public
/// URL and its generated filename.
pub struct UploadResponse {
    pub url: String,
    pub filename: String,
}

/// Build the response for a stored artifact from its filename.
pub fn upload_response(filename: String) -> (r: UploadResponse)
    ensures
        r.filename@ == filename@,
        r.url@ == "/uploads/"@ + filename@,
{
    let url = public_url(filename.as_str());
    UploadResponse { url, filename }
}

} // verus!
