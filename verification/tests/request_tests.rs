use utapi_rs::config::ApiKey;
use utapi_rs::config::UploadthingConfig;
use utapi_rs::files::FileDescriptor;
use utapi_rs::files::mime_or_octet_stream;
use utapi_rs::models::FieldValue;
use utapi_rs::models::FileObj;
use utapi_rs::models::PresignedUrlOpts;
use utapi_rs::models::UploadFileResponseData;
use utapi_rs::request::MAX_PRESIGNED_EXPIRES_IN;
use utapi_rs::request::classify_response;
use utapi_rs::request::endpoint_url;
use utapi_rs::request::poll_upload_url;
use utapi_rs::request::request_headers;
use utapi_rs::request::status_is_success;
use utapi_rs::request::validate_presigned_opts;
use utapi_rs::transfer::build_form_fields;
use utapi_rs::transfer::classify_transfer_response;
use utapi_rs::transfer::make_upload_result;

fn ticket(key: &str, file_url: &str, dest: &str) -> UploadFileResponseData {
    UploadFileResponseData {
        fields: vec![
            ("Content-Type".to_string(), FieldValue::Text("image/png".to_string())),
            ("policy".to_string(), FieldValue::Text("abc".to_string())),
        ],
        file_url: file_url.to_string(),
        key: key.to_string(),
        presigned_url: dest.to_string(),
        url: None,
        urls: None,
        chunk_size: None,
    }
}

#[test]
fn endpoint_url_joins_host_and_path() {
    let url = endpoint_url("https://uploadthing.com", "/api/deleteFile");
    assert_eq!(url, "https://uploadthing.com//api/deleteFile");
    let url = endpoint_url("https://uploadthing.com", "api/deleteFile");
    assert_eq!(url, "https://uploadthing.com/api/deleteFile");
}

#[test]
fn poll_url_carries_ticket_key() {
    let url = poll_upload_url("https://uploadthing.com", "key123");
    assert_eq!(url, "https://uploadthing.com/api/pollUpload/key123");
}

#[test]
fn status_success_range_edges() {
    assert!(!status_is_success(199));
    assert!(status_is_success(200));
    assert!(status_is_success(299));
    assert!(!status_is_success(300));
    assert!(!status_is_success(400));
    assert!(!status_is_success(500));
}

#[test]
fn classify_response_returns_body_on_failure() {
    assert!(classify_response(204, "ignored".to_string()).is_ok());
    let err = classify_response(400, "bad request".to_string());
    assert_eq!(err, Err("bad request".to_string()));
}

#[test]
fn request_headers_full_config() {
    let config = UploadthingConfig {
        host: "https://uploadthing.com".to_string(),
        user_agent: Some("agent/1".to_string()),
        api_key: Some(ApiKey { prefix: Some("sk".to_string()), key: "s3cr3t".to_string() }),
        version: Some("6.4".to_string()),
    };
    let headers = request_headers(&config).expect("config is complete");
    assert_eq!(headers.len(), 5);
    assert_eq!(headers[0], ("Content-Type".to_string(), "application/json".to_string()));
    assert_eq!(headers[1], ("Cache-Control".to_string(), "no-store".to_string()));
    assert_eq!(headers[2], ("User-Agent".to_string(), "agent/1".to_string()));
    assert_eq!(headers[3], ("x-uploadthing-api-key".to_string(), "s3cr3t".to_string()));
    assert_eq!(headers[4], ("x-uploadthing-version".to_string(), "6.4".to_string()));
}

#[test]
fn request_headers_missing_api_key() {
    let config = UploadthingConfig::default();
    assert!(request_headers(&config).is_none());
}

#[test]
fn presigned_opts_accept_up_to_limit() {
    let opts = PresignedUrlOpts { file_key: "k".to_string(), expires_in: Some(MAX_PRESIGNED_EXPIRES_IN) };
    assert!(validate_presigned_opts(&opts).is_ok());
    let opts = PresignedUrlOpts { file_key: "k".to_string(), expires_in: None };
    assert!(validate_presigned_opts(&opts).is_ok());
}

#[test]
fn presigned_opts_reject_past_limit() {
    let opts = PresignedUrlOpts { file_key: "k".to_string(), expires_in: Some(MAX_PRESIGNED_EXPIRES_IN + 1) };
    let err = validate_presigned_opts(&opts);
    assert_eq!(err, Err("expiresIn must be less than 604800".to_string()));
}

#[test]
fn mime_guess_known_extension() {
    assert_eq!(mime_or_octet_stream("photos/cat.png"), "image/png");
    assert_eq!(mime_or_octet_stream("notes.txt"), "text/plain");
}

#[test]
fn mime_guess_falls_back_to_octet_stream() {
    assert_eq!(mime_or_octet_stream("archive.zzzz"), "application/octet-stream");
    assert_eq!(mime_or_octet_stream("no_extension"), "application/octet-stream");
}

#[test]
fn form_fields_all_text_kept_in_order() {
    let t = ticket("k", "https://u", "https://d");
    let fields = build_form_fields(&t.fields).expect("all values are text");
    assert_eq!(fields.len(), 2);
    assert_eq!(fields[0], ("Content-Type".to_string(), "image/png".to_string()));
    assert_eq!(fields[1], ("policy".to_string(), "abc".to_string()));
}

#[test]
fn form_fields_reject_non_text_value() {
    let fields = vec![
        ("policy".to_string(), FieldValue::Text("abc".to_string())),
        ("oops".to_string(), FieldValue::NonText),
    ];
    let err = build_form_fields(&fields);
    assert_eq!(err, Err("ticket form field value is not a string".to_string()));
}

#[test]
fn transfer_response_failure_carries_body() {
    assert!(classify_transfer_response(201, "ignored".to_string()).is_ok());
    let err = classify_transfer_response(500, "server exploded".to_string());
    match err {
        Err(utapi_rs::errors::TaskFailure::Transfer(body)) => {
            assert_eq!(body, "server exploded");
        },
        _ => panic!("expected a transfer failure"),
    }
}

#[test]
fn upload_result_combines_ticket_and_descriptor() {
    let desc = FileDescriptor { name: "cat.png".to_string(), mime: "image/png".to_string(), size: 1234 };
    let t = ticket("key1", "https://files/cat.png", "https://dest");
    let result = make_upload_result(&desc, &t);
    assert_eq!(result.key, "key1");
    assert_eq!(result.url, "https://files/cat.png");
    assert_eq!(result.name, "cat.png");
    assert_eq!(result.size, 1234);
}

#[test]
fn descriptor_from_path_on_disk() {
    let file = FileObj { name: "root".to_string(), path: "/".to_string() };
    let desc = utapi_rs::files::file_descriptor(&file).expect("the root path exists");
    assert_eq!(desc.name, "root");
    assert_eq!(desc.mime, "application/octet-stream");
}

#[test]
fn descriptor_from_parts_pins_every_field() {
    let file = FileObj { name: "cat".to_string(), path: "img/cat.png".to_string() };
    let desc = utapi_rs::files::descriptor_from_parts(&file, 77);
    assert_eq!(desc.name, "cat");
    assert_eq!(desc.mime, "image/png");
    assert_eq!(desc.size, 77);
}

#[test]
fn descriptor_fails_for_missing_file() {
    let file = FileObj { name: "ghost".to_string(), path: "no/such/file.bin".to_string() };
    assert!(utapi_rs::files::file_descriptor(&file).is_err());
}
