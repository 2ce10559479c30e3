//! The shared request envelope: every call to the service addresses
//! `host/pathname`, carries the same header set, and treats any
//! status outside the 2xx range as a failure whose body is the
//! diagnostic. The transport itself lives outside this crate; these
//! functions pin down exactly what is sent and how an answer is read.

use vstd::prelude::*;
use vstd::string::*;

use crate::config::UploadthingConfig;
use crate::models::PresignedUrlOpts;

verus! {

/// The full URL of an endpoint: the host, a single `/`, then the
/// endpoint path.
pub fn endpoint_url(host: &str, pathname: &str) -> (url: String)
    ensures
        url@ == host@ + "/"@ + pathname@,
{
    let mut url = host.to_owned();
    url.append("/");
    url.append(pathname);
    url
}

/// The URL polled for one file's completion, parameterized by the
/// ticket key.
pub fn poll_upload_url(host: &str, key: &str) -> (url: String)
    ensures
        url@ == host@ + "/api/pollUpload/"@ + key@,
{
    let mut url = host.to_owned();
    url.append("/api/pollUpload/");
    url.append(key);
    url
}

/// Whether an HTTP status code reports success.
pub open spec fn spec_is_success(status: u16) -> bool {
    200 <= status < 300
}

/// An HTTP status code reports success exactly when it lies in the
/// 2xx range.
pub fn status_is_success(status: u16) -> (ok: bool)
    ensures
        ok == spec_is_success(status),
{
    200 <= status && status < 300
}

/// Reads a service response: a 2xx status is success; anything else
/// fails with the response body as the diagnostic.
pub fn classify_response(status: u16, body: String) -> (r: Result<(), String>)
    ensures
        r is Ok <==> spec_is_success(status),
        r matches Err(diag) ==> diag == body,
{
    if status_is_success(status) {
        Ok(())
    } else {
        Err(body)
    }
}

/// The headers carried by every envelope request, in order: content
/// type, cache control, user agent, the raw API key, and the client
/// version. There is no header set when the configuration lacks the
/// user agent, the API key or the version.
pub fn request_headers(config: &UploadthingConfig) -> (r: Option<Vec<(String, String)>>)
    ensures
        r is Some <==> config.user_agent is Some && config.api_key is Some && config.version
            is Some,
        r matches Some(h) ==> {
            &&& config.user_agent matches Some(ua)
            &&& config.api_key matches Some(k)
            &&& config.version matches Some(v)
            &&& h@.len() == 5
            &&& h@[0].0@ == "Content-Type"@ && h@[0].1@ == "application/json"@
            &&& h@[1].0@ == "Cache-Control"@ && h@[1].1@ == "no-store"@
            &&& h@[2].0@ == "User-Agent"@ && h@[2].1@ == ua@
            &&& h@[3].0@ == "x-uploadthing-api-key"@ && h@[3].1@ == k.key@
            &&& h@[4].0@ == "x-uploadthing-version"@ && h@[4].1@ == v@
        },
{
    match (&config.user_agent, &config.api_key, &config.version) {
        (Some(ua), Some(key), Some(version)) => {
            let mut h: Vec<(String, String)> = Vec::new();
            h.push(("Content-Type".to_owned(), "application/json".to_owned()));
            h.push(("Cache-Control".to_owned(), "no-store".to_owned()));
            h.push(("User-Agent".to_owned(), ua.clone()));
            h.push(("x-uploadthing-api-key".to_owned(), key.header_value()));
            h.push(("x-uploadthing-version".to_owned(), version.clone()));
            Some(h)
        },
        _ => None,
    }
}

/// The longest accepted expiration of a presigned URL, in seconds.
pub const MAX_PRESIGNED_EXPIRES_IN: i32 = 604800;

/// Whether presigned-URL options are acceptable: an absent expiration
/// counts as zero, and the expiration may not exceed
/// [`MAX_PRESIGNED_EXPIRES_IN`].
pub open spec fn spec_presigned_opts_valid(opts: PresignedUrlOpts) -> bool {
    (match opts.expires_in {
        Some(e) => e,
        None => 0,
    }) <= MAX_PRESIGNED_EXPIRES_IN
}

/// Accepts presigned-URL options exactly when their expiration is
/// within bounds; otherwise fails with the diagnostic the caller
/// reports.
pub fn validate_presigned_opts(opts: &PresignedUrlOpts) -> (r: Result<(), String>)
    ensures
        r is Ok <==> spec_presigned_opts_valid(*opts),
        r matches Err(diag) ==> diag@ == "expiresIn must be less than 604800"@,
{
    let expires_in: i32 = match opts.expires_in {
        Some(e) => e,
        None => 0,
    };
    if expires_in > MAX_PRESIGNED_EXPIRES_IN {
        Err("expiresIn must be less than 604800".to_owned())
    } else {
        Ok(())
    }
}

} // verus!
