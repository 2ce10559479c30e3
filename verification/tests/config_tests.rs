use utapi_rs::config::ApiKey;
use utapi_rs::config::UploadthingConfig;
use utapi_rs::config::UploadthingConfigBuilder;
use utapi_rs::models::ListFilesOpts;

#[test]
fn parse_api_key_with_prefix() {
    let key = ApiKey::parse("Bearer:secret123");
    assert_eq!(key.prefix, Some("Bearer".to_string()));
    assert_eq!(key.key, "secret123".to_string());
}

#[test]
fn parse_api_key_without_prefix() {
    let key = ApiKey::parse("secret123");
    assert_eq!(key.prefix, None);
    assert_eq!(key.key, "secret123".to_string());
}

#[test]
fn parse_api_key_splits_at_first_colon_only() {
    let key = ApiKey::parse("a:b:c");
    assert_eq!(key.prefix, Some("a".to_string()));
    assert_eq!(key.key, "b:c".to_string());
}

#[test]
fn parse_api_key_empty_prefix_and_key() {
    let key = ApiKey::parse(":");
    assert_eq!(key.prefix, Some(String::new()));
    assert_eq!(key.key, String::new());
}

#[test]
fn header_value_is_bare_key() {
    let key = ApiKey { prefix: Some("Bearer".to_string()), key: "secret123".to_string() };
    assert_eq!(key.header_value(), "secret123");
}

#[test]
fn default_config_values() {
    let config = UploadthingConfig::default();
    assert_eq!(config.host, "https://uploadthing.com");
    assert_eq!(config.user_agent, Some("utapi-rs/0.1.0/rust".to_string()));
    assert!(config.api_key.is_none());
    assert_eq!(config.version, Some("0.1.0".to_string()));
}

#[test]
fn config_new_matches_default() {
    let config = UploadthingConfig::new();
    assert_eq!(config.host, "https://uploadthing.com");
    assert!(config.api_key.is_none());
}

#[test]
fn builder_sets_every_field() {
    let config = UploadthingConfig::builder()
        .host("https://customhost.com")
        .user_agent("CustomUserAgent/1.0")
        .api_key("my_api_key")
        .version("1.0.0")
        .build();
    assert_eq!(config.host, "https://customhost.com");
    assert_eq!(config.user_agent, Some("CustomUserAgent/1.0".to_string()));
    let key = config.api_key.expect("api key was set");
    assert_eq!(key.prefix, None);
    assert_eq!(key.key, "my_api_key".to_string());
    assert_eq!(config.version, Some("1.0.0".to_string()));
}

#[test]
fn builder_keeps_untouched_fields() {
    let config = UploadthingConfigBuilder::new().host("https://example.com").build();
    assert_eq!(config.host, "https://example.com");
    assert_eq!(config.user_agent, Some("utapi-rs/0.1.0/rust".to_string()));
    assert!(config.api_key.is_none());
    assert_eq!(config.version, Some("0.1.0".to_string()));
}

#[test]
fn builder_parses_prefixed_api_key() {
    let config = UploadthingConfigBuilder::new().api_key("sk_live:abc").build();
    let key = config.api_key.expect("api key was set");
    assert_eq!(key.prefix, Some("sk_live".to_string()));
    assert_eq!(key.key, "abc".to_string());
}

#[test]
fn list_files_opts_default_page() {
    let opts = ListFilesOpts::default();
    assert_eq!(opts.limit, Some(10));
    assert_eq!(opts.offset, Some(0));
}
