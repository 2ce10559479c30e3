//! Plain data carried between the caller, the orchestration core and
//! the service: request payloads, server responses, upload tickets and
//! upload results.

use vstd::prelude::*;

verus! {

/// Response to a file deletion call.
#[derive(Clone, Debug)]
pub struct DeleteFileResponse {
    /// Whether the files were deleted.
    pub success: bool,
}

/// A payload holding a list of file keys.
#[derive(Clone, Debug)]
pub struct FileKeysPayload {
    /// One unique key per file.
    pub file_keys: Vec<String>,
}

/// Options for listing files, allowing for pagination.
#[derive(Clone, Debug)]
pub struct ListFilesOpts {
    /// Maximum number of files to return.
    pub limit: Option<i32>,
    /// Number of files to skip first.
    pub offset: Option<i32>,
}

impl Default for ListFilesOpts {
    /// The stock page: at most ten files, starting from the first.
    fn default() -> (opts: ListFilesOpts)
        ensures
            opts.limit == Some(10i32),
            opts.offset == Some(0i32),
    {
        ListFilesOpts { limit: Some(10), offset: Some(0) }
    }
}

/// A request to rename a single file.
#[derive(Clone, Debug)]
pub struct SingleFileRename {
    /// The unique key of the file to be renamed.
    pub file_key: String,
    /// The new name for the file.
    pub new_name: String,
}

/// Options for renaming several files in one operation.
#[derive(Clone, Debug)]
pub struct RenameFilesOpts {
    /// One entry per file to rename.
    pub updates: Vec<SingleFileRename>,
}

/// The server-side status of an uploaded file.
#[derive(Clone, Copy, Debug, PartialEq, Eq, Structural)]
pub enum UploadthingFileStatus {
    /// Marked for deletion but not yet deleted.
    DeletionPending,
    /// The upload failed.
    Failed,
    /// Successfully uploaded.
    Uploaded,
    /// Currently being uploaded.
    Uploading,
}

/// A single upload URL and its associated key.
#[derive(Clone, Debug)]
pub struct UploadthingUrl {
    /// Where the file should be uploaded.
    pub url: String,
    /// The key referencing the uploaded file.
    pub key: String,
}

/// Response listing upload URLs and their keys.
#[derive(Clone, Debug)]
pub struct UploadthingUrlsResponse {
    /// One entry per requested key.
    pub data: Vec<UploadthingUrl>,
}

/// One stored file, as the listing call reports it.
#[derive(Clone, Debug)]
pub struct UploadthingFile {
    /// The key used to retrieve the file.
    pub key: String,
    /// A unique identifier of the file.
    pub id: String,
    /// The current status of the file.
    pub status: UploadthingFileStatus,
}

/// Response to a listing call.
#[derive(Clone, Debug)]
pub struct UploadthingFileResponse {
    /// One entry per stored file.
    pub files: Vec<UploadthingFile>,
}

/// Options for generating a presigned URL.
#[derive(Clone, Debug)]
pub struct PresignedUrlOpts {
    /// The key of the file the URL is for.
    pub file_key: String,
    /// Expiration in seconds; the service applies a default when
    /// absent.
    pub expires_in: Option<i32>,
}

/// Response carrying a presigned URL.
#[derive(Clone, Debug)]
pub struct PresignedUrlResponse {
    /// The presigned URL.
    pub url: String,
}

/// How the uploaded file should be served.
#[derive(Clone, Copy, Debug, PartialEq, Eq, Structural)]
pub enum ContentDisposition {
    /// Served for display in the browser.
    Inline,
    /// Served as a download.
    Attachment,
}

/// Who may read the uploaded file.
#[derive(Clone, Copy, Debug, PartialEq, Eq, Structural)]
pub enum Acl {
    /// Only the owner.
    Private,
    /// Anyone with the URL.
    PublicRead,
}

/// A local file handed in for upload: its display name and the path
/// it is read from.
#[derive(Clone, Debug)]
pub struct FileObj {
    /// The display name the file keeps after upload.
    pub name: String,
    /// The local path the bytes are read from.
    pub path: String,
}

/// Batch-wide upload options.
#[derive(Clone, Debug)]
pub struct UploadFileOpts {
    /// Shared metadata attached to every file of the batch.
    pub metadata: Option<Vec<(String, String)>>,
    /// How the files should be served.
    pub content_disposition: Option<ContentDisposition>,
    /// Who may read the files.
    pub acl: Option<Acl>,
}

/// One value of a ticket's form-field mapping. The service owes every
/// field a text value; anything else is a contract violation that the
/// transfer rejects before sending.
#[derive(Clone, Debug)]
pub enum FieldValue {
    /// A text value, usable as a form field.
    Text(String),
    /// A value of any other shape.
    NonText,
}

/// The server's answer to the batched ticket request.
#[derive(Clone, Debug)]
pub struct UploadFileResponse {
    /// One ticket per requested file, in request order.
    pub data: Vec<UploadFileResponseData>,
}

/// One upload ticket: where to push a file's bytes and the form
/// fields the destination demands.
#[derive(Clone, Debug)]
pub struct UploadFileResponseData {
    /// Form-field name to value mapping required by the destination.
    pub fields: Vec<(String, FieldValue)>,
    /// The public URL of the file once uploaded.
    pub file_url: String,
    /// The unique key of the file.
    pub key: String,
    /// The destination URL the bytes are posted to.
    pub presigned_url: String,
    /// Alternate single URL, for large-file transfer.
    pub url: Option<String>,
    /// Alternate URL list, for large-file transfer.
    pub urls: Option<Vec<String>>,
    /// Chunk size for large-file transfer.
    pub chunk_size: Option<u64>,
}

/// The form fields of a typical ticket, under their field names.
#[derive(Clone, Debug)]
pub struct Fields {
    /// How the file is served.
    pub content_disposition: String,
    /// The MIME type of the file.
    pub content_type: String,
    /// The upload policy.
    pub policy: String,
    /// Signature algorithm.
    pub x_amz_algorithm: String,
    /// Signature credential.
    pub x_amz_credential: String,
    /// Signature date.
    pub x_amz_date: String,
    /// The signature itself.
    pub x_amz_signature: String,
    /// Who may read the file; may be empty.
    pub acl: String,
    /// The bucket written to; may be empty.
    pub bucket: String,
    /// The object key; may be empty.
    pub key: String,
}

/// The record returned for one successfully uploaded file.
#[derive(Clone, Debug)]
pub struct FileUpload {
    /// The unique key of the file.
    pub key: String,
    /// The public URL of the file.
    pub url: String,
    /// The display name of the file.
    pub name: String,
    /// The size of the file in bytes.
    pub size: u64,
}

} // verus!
