//! File uploads: ownership and upload validation.
//!
//! An upload arrives as base64 text with a declared media type; only a
//! docx document is accepted, and the text must decode.
use crate::text::strings_eq;
use vstd::prelude::*;

verus! {

/// A request to upload a file.
#[derive(Debug, Clone, PartialEq)]
pub struct UploadFileData {
    pub base64_docx_file: String,
    pub file_name: String,
    pub file_mime_type: String,
    pub private: bool,
}

/// A request to change a file's visibility.
#[derive(Debug, Clone, PartialEq)]
pub struct UpdateFileData {
    pub file_id: u128,
    pub private: bool,
}

/// Why an upload or file operation is refused.
#[derive(Debug, Clone, Copy, PartialEq, Eq, Structural)]
pub enum FileError {
    InvalidBase64,
    NotDocx,
    NotOwner,
}

impl FileError {
    /// The report sent for this refusal.
    pub fn text(&self) -> (r: String)
        ensures
            *self is InvalidBase64 ==> r@ == "Could not decode base64 file"@,
            *self is NotDocx ==> r@ == "Must upload a docx file"@,
            *self is NotOwner ==> r@ == "Forbidden"@,
    {
        match self {
            FileError::InvalidBase64 => "Could not decode base64 file".to_owned(),
            FileError::NotDocx => "Must upload a docx file".to_owned(),
            FileError::NotOwner => "Forbidden".to_owned(),
        }
    }
}

/// The media type of a docx document.
pub open spec fn docx_mime() -> Seq<char> {
    "application/vnd.openxmlformats-officedocument.wordprocessingml.document"@
}

/// What a text decodes to under URL-safe unpadded base64.
pub uninterp spec fn urlsafe_decoding(s: Seq<char>) -> Option<Seq<u8>>;

/// Relies on the base64 crate's `GeneralPurpose` engine with the
/// `URL_SAFE` alphabet and no padding: what a text decodes to, and whether
/// it decodes at all, depends on the text alone.
#[verifier::external_body]
fn decode_base64_urlsafe(s: &str) -> (r: Option<Vec<u8>>)
    ensures
        match r {
            Some(v) => urlsafe_decoding(s@) == Some(v@),
            None => urlsafe_decoding(s@) is None,
        },
{
    let engine = base64::engine::GeneralPurpose::new(
        &base64::alphabet::URL_SAFE,
        base64::engine::general_purpose::NO_PAD,
    );
    base64::Engine::decode(&engine, s).ok()
}

/// The decoded document of an upload: the base64 text must decode, and the
/// declared media type must be docx — checked in that order.
pub fn validate_upload(data: &UploadFileData) -> (r: Result<Vec<u8>, FileError>)
    ensures
        match r {
            Ok(bytes) => urlsafe_decoding(data.base64_docx_file@) == Some(bytes@)
                && data.file_mime_type@ == docx_mime(),
            Err(e) => (e is InvalidBase64 && urlsafe_decoding(data.base64_docx_file@) is None)
                || (e is NotDocx && urlsafe_decoding(data.base64_docx_file@) is Some
                && data.file_mime_type@ != docx_mime()),
        },
{
    let bytes = match decode_base64_urlsafe(data.base64_docx_file.as_str()) {
        Some(v) => v,
        None => {
            return Err(FileError::InvalidBase64);
        },
    };
    if !strings_eq(
        data.file_mime_type.as_str(),
        "application/vnd.openxmlformats-officedocument.wordprocessingml.document",
    ) {
        return Err(FileError::NotDocx);
    }
    Ok(bytes)
}

/// Only the author of a file may operate on it.
pub fn check_file_ownership(author_id: u128, user_id: u128) -> (r: Result<(), FileError>)
    ensures
        author_id == user_id <==> r is Ok,
        r matches Err(e) ==> e is NotOwner,
{
    if author_id == user_id {
        Ok(())
    } else {
        Err(FileError::NotOwner)
    }
}

} // verus!
