//! Per-file descriptors: before the ticket call, the batch computes
//! each file's display name, MIME type (guessed from the path's
//! extension, falling back to the generic octet-stream type) and
//! on-disk size.

use vstd::prelude::*;

use crate::models::FileObj;

verus! {

/// What the ticket request says about one file: display name, MIME
/// type and byte size.
#[derive(Clone, Debug)]
pub struct FileDescriptor {
    /// The display name the file keeps after upload.
    pub name: String,
    /// The MIME type reported for the file.
    pub mime: String,
    /// The size of the file in bytes.
    pub size: u64,
}

/// The MIME type the guesser knows for a path, if any.
pub uninterp spec fn mime_guess_of(path: Seq<char>) -> Option<Seq<char>>;

/// Relies on `mime_guess::from_path` and `MimeGuess::first_raw`: the
/// guess is a static table lookup keyed by the path's extension, so
/// it depends on the path text alone.
#[verifier::external_body]
fn guess_mime_type(path: &str) -> (r: Option<String>)
    ensures
        match r {
            Some(m) => mime_guess_of(path@) == Some(m@),
            None => mime_guess_of(path@) is None,
        },
{
    match mime_guess::from_path(path).first_raw() {
        Some(m) => Some(m.to_string()),
        None => None,
    }
}

/// The MIME type used for a file: the guess for its path, or the
/// generic octet-stream type when nothing is known.
pub open spec fn spec_mime_or_octet_stream(path: Seq<char>) -> Seq<char> {
    match mime_guess_of(path) {
        Some(m) => m,
        None => "application/octet-stream"@,
    }
}

/// The MIME type sent for a file: guessed from the path's extension,
/// falling back to the generic octet-stream type.
pub fn mime_or_octet_stream(path: &str) -> (r: String)
    ensures
        r@ == spec_mime_or_octet_stream(path@),
{
    match guess_mime_type(path) {
        Some(m) => m,
        None => "application/octet-stream".to_owned(),
    }
}

/// Relies on `filesize::PathExt::size_on_disk`: reads the file's real
/// size from the filesystem. The result depends on what is on disk,
/// so nothing ties it to the path text; a failure carries the
/// filesystem's diagnostic.
#[verifier::external_body]
fn size_on_disk(path: &str) -> (r: Result<u64, String>) {
    match filesize::PathExt::size_on_disk(std::path::Path::new(path)) {
        Ok(n) => Ok(n),
        Err(e) => Err(e.to_string()),
    }
}

/// The descriptor of a file whose size is already known: its display
/// name, the MIME type derived from its path, and that size.
pub fn descriptor_from_parts(file: &FileObj, size: u64) -> (d: FileDescriptor)
    ensures
        d.name == file.name,
        d.mime@ == spec_mime_or_octet_stream(file.path@),
        d.size == size,
{
    FileDescriptor {
        name: file.name.clone(),
        mime: mime_or_octet_stream(file.path.as_str()),
        size,
    }
}

/// The descriptor of one file, with its size read from disk. Whatever
/// size the filesystem reports, the name and MIME type are the
/// file's own; when the size cannot be read, the filesystem's
/// diagnostic comes back instead.
pub fn file_descriptor(file: &FileObj) -> (r: Result<FileDescriptor, String>)
    ensures
        r matches Ok(d) ==> d.name == file.name && d.mime@ == spec_mime_or_octet_stream(
            file.path@,
        ),
{
    match size_on_disk(file.path.as_str()) {
        Ok(size) => Ok(descriptor_from_parts(file, size)),
        Err(e) => Err(e),
    }
}

/// The descriptors of a whole batch, in order, with each size read
/// from disk. The first file whose size cannot be read fails the
/// whole computation with the filesystem's diagnostic; whatever the
/// sizes, each descriptor carries its own file's name and MIME type.
pub fn file_descriptors(files: &Vec<FileObj>) -> (r: Result<Vec<FileDescriptor>, String>)
    ensures
        r matches Ok(ds) ==> ds@.len() == files@.len() && forall|i: int|
            0 <= i < files@.len() ==> (#[trigger] ds@[i]).name == files@[i].name && ds@[i].mime@
                == spec_mime_or_octet_stream(files@[i].path@),
{
    let mut ds: Vec<FileDescriptor> = Vec::new();
    let mut i: usize = 0;
    while i < files.len()
        invariant
            i <= files@.len(),
            ds@.len() == i,
            forall|j: int|
                0 <= j < i ==> (#[trigger] ds@[j]).name == files@[j].name && ds@[j].mime@
                    == spec_mime_or_octet_stream(files@[j].path@),
        decreases files@.len() - i,
    {
        match file_descriptor(&files[i]) {
            Ok(d) => {
                ds.push(d);
            },
            Err(e) => {
                return Err(e);
            },
        }
        i = i + 1;
    }
    Ok(ds)
}

} // verus!
