//! File route decisions: file contents travel base64-encoded in request and
//! response bodies.

use base64::Engine;
use vstd::prelude::*;
use crate::api::error::ApiError;

verus! {

/// The standard (padded) base64 text of some bytes.
pub uninterp spec fn base64_text(bytes: Seq<u8>) -> Seq<char>;

/// What decoding a text as standard base64 gives: the bytes, or the
/// decoder's error message.
pub uninterp spec fn base64_decoding(text: Seq<char>) -> Result<Seq<u8>, Seq<char>>;

/// Calls `base64::engine::general_purpose::STANDARD.encode`. The text is
/// named `base64_text` of the bytes. The engine panics when the encoded
/// length overflows `usize`, which the bound on the input rules out.
#[verifier::external_body]
fn standard_encode(data: &[u8]) -> (r: String)
    requires
        data@.len() <= usize::MAX / 4,
    ensures
        r@ == base64_text(data@),
{
    base64::engine::general_purpose::STANDARD.encode(data)
}

/// Calls `base64::engine::general_purpose::STANDARD.decode`; the outcome is
/// named `base64_decoding` of the text, the error taken by its message.
/// That text the standard engine wrote decodes to the bytes it was written
/// from is left unsaid here.
#[verifier::external_body]
fn standard_decode(s: &str) -> (r: Result<Vec<u8>, String>)
    ensures
        match r {
            Ok(v) => base64_decoding(s@) == Ok::<Seq<u8>, Seq<char>>(v@),
            Err(m) => base64_decoding(s@) == Err::<Seq<u8>, Seq<char>>(m@),
        },
{
    base64::engine::general_purpose::STANDARD.decode(s).map_err(|e| e.to_string())
}

/// File metadata as it appears in a response body.
#[derive(Debug, Clone)]
pub struct FileEntryResponse {
    pub file_id: String,
    pub parent_id: Option<String>,
    pub name: String,
    pub is_directory: bool,
    pub size_bytes: u64,
    pub mime_type: String,
    pub owner_id: String,
    pub created_at: String,
    pub updated_at: String,
}

/// File content as it appears in a response body: metadata and the
/// base64-encoded bytes.
#[derive(Debug, Clone)]
pub struct FileContentResponse {
    pub metadata: FileEntryResponse,
    pub content_hash: Option<String>,
    pub data: String,
}

/// The body of a file write request.
#[derive(Debug, Clone)]
pub struct WriteFileRequest {
    pub path: String,
    pub content_base64: String,
}

/// Encode file content for a response body.
pub fn base64_encode(data: &[u8]) -> (r: String)
    requires
        data@.len() <= usize::MAX / 4,
    ensures
        r@ == base64_text(data@),
{
    standard_encode(data)
}

/// Decode file content from a request body.
pub fn base64_decode(s: &str) -> (r: Result<Vec<u8>, String>)
    ensures
        match r {
            Ok(v) => base64_decoding(s@) == Ok::<Seq<u8>, Seq<char>>(v@),
            Err(m) => base64_decoding(s@) == Err::<Seq<u8>, Seq<char>>(m@),
        },
{
    standard_decode(s)
}

/// The bytes a write request carries; text that is not base64 is a bad
/// request, `invalid base64: <decoder message>`.
pub fn write_request_data(req: &WriteFileRequest) -> (r: Result<Vec<u8>, ApiError>)
    ensures
        match base64_decoding(req.content_base64@) {
            Ok(b) => r matches Ok(v) && v@ == b,
            Err(m) => r matches Err(ApiError::BadRequest(t)) && t@ == "invalid base64: "@ + m,
        },
{
    match base64_decode(req.content_base64.as_str()) {
        Ok(v) => Ok(v),
        Err(m) => Err(ApiError::BadRequest(String::from_str("invalid base64: ").concat(m.as_str()))),
    }
}

} // verus!
