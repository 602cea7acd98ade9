//! The upload receiver's decision: which field of a multipart request holds
//! the upload.

use crate::text::same_text;
use vstd::prelude::*;

verus! {

/// The name of the multipart field that holds the uploaded file.
pub const UPLOAD_FIELD: &'static str = "file";

/// Whether the field with this name holds the upload. A field without a
/// name does not.
pub fn is_upload_field(name: Option<&str>) -> (b: bool)
    ensures
        b == (name matches Some(given) && given@ == UPLOAD_FIELD@),
{
    match name {
        Some(given) => same_text(given, UPLOAD_FIELD),
        None => false,
    }
}

} // verus!
