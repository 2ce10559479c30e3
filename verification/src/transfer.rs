//! One file's transfer: the multipart form is planned from the
//! ticket's field mapping (every value must be text; anything else is
//! rejected with a validation error before any byte is sent), the
//! destination's answer is read, and a successful upload yields the
//! file's result record.

use vstd::prelude::*;

use crate::errors::TaskFailure;
use crate::files::FileDescriptor;
use crate::models::FieldValue;
use crate::models::FileUpload;
use crate::models::UploadFileResponseData;
use crate::request::spec_is_success;
use crate::request::status_is_success;

verus! {

/// Whether every form-field value of a ticket is text.
pub open spec fn spec_fields_all_text(fields: Seq<(String, FieldValue)>) -> bool {
    forall|i: int| 0 <= i < fields.len() ==> (#[trigger] fields[i].1) is Text
}

/// Plans the text parts of the multipart form from the ticket's
/// field mapping: every entry becomes a text field, in order, under
/// its own name. A value of any other shape is a contract violation
/// and is rejected with a validation error before the send.
pub fn build_form_fields(fields: &Vec<(String, FieldValue)>) -> (r: Result<
    Vec<(String, String)>,
    String,
>)
    ensures
        r is Ok <==> spec_fields_all_text(fields@),
        r matches Ok(out) ==> out@.len() == fields@.len() && forall|i: int|
            0 <= i < fields@.len() ==> (#[trigger] out@[i]).0 == fields@[i].0 && fields@[i].1
                == FieldValue::Text(out@[i].1),
        r matches Err(m) ==> m@ == "ticket form field value is not a string"@,
{
    let mut out: Vec<(String, String)> = Vec::new();
    let mut i: usize = 0;
    while i < fields.len()
        invariant
            i <= fields@.len(),
            out@.len() == i,
            forall|j: int| 0 <= j < i ==> (#[trigger] fields@[j].1) is Text,
            forall|j: int|
                0 <= j < i ==> (#[trigger] out@[j]).0 == fields@[j].0 && fields@[j].1
                    == FieldValue::Text(out@[j].1),
        decreases fields@.len() - i,
    {
        let pair = &fields[i];
        match &pair.1 {
            FieldValue::Text(v) => {
                out.push((pair.0.clone(), v.clone()));
            },
            FieldValue::NonText => {
                assert(!spec_fields_all_text(fields@));
                return Err("ticket form field value is not a string".to_owned());
            },
        }
        i = i + 1;
    }
    Ok(out)
}

/// Reads the destination's answer to a transfer: a 2xx status is
/// success, anything else is a transfer failure carrying the
/// response body as its diagnostic. No retry follows; a transfer
/// failure is terminal for its file.
pub fn classify_transfer_response(status: u16, body: String) -> (r: Result<(), TaskFailure>)
    ensures
        r is Ok <==> spec_is_success(status),
        r matches Err(f) ==> f == TaskFailure::Transfer(body),
{
    if status_is_success(status) {
        Ok(())
    } else {
        Err(TaskFailure::Transfer(body))
    }
}

/// The record for a successfully uploaded file: the ticket's key and
/// public URL, with the file's own display name and size.
pub fn make_upload_result(desc: &FileDescriptor, ticket: &UploadFileResponseData) -> (r:
    FileUpload)
    ensures
        r.key == ticket.key,
        r.url == ticket.file_url,
        r.name == desc.name,
        r.size == desc.size,
{
    FileUpload {
        key: ticket.key.clone(),
        url: ticket.file_url.clone(),
        name: desc.name.clone(),
        size: desc.size,
    }
}

} // verus!
