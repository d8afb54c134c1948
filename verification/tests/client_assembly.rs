use supabase_client_rs::{create_client, Error, SupabaseClient, SupabaseConfig};

#[test]
fn test_create_client() {
    let client = create_client("https://example.supabase.co", "test-key");
    assert!(client.is_ok());
}

#[test]
fn test_create_client_empty_url() {
    let client = create_client("", "test-key");
    assert!(client.is_err());
}

#[test]
fn test_create_client_empty_key() {
    let client = create_client("https://example.supabase.co", "");
    assert!(client.is_err());
}

#[test]
fn test_with_jwt() {
    let client = create_client("https://example.supabase.co", "test-key").unwrap();
    let auth_client = client.with_jwt("user-jwt");
    assert!(auth_client.is_ok());
}

#[test]
fn missing_url_error_variant() {
    let err = match create_client("", "any-key") {
        Err(e) => e,
        Ok(_) => panic!("expected an error"),
    };
    assert!(matches!(err, Error::MissingUrl));
    assert_eq!(err.message(), "URL is required");
}

#[test]
fn missing_key_error_variant() {
    let err = match create_client("https://example.supabase.co", "") {
        Err(e) => e,
        Ok(_) => panic!("expected an error"),
    };
    assert!(matches!(err, Error::MissingKey));
    assert_eq!(err.message(), "API key is required");
}

#[test]
fn auth_headers_from_api_key() {
    let client = create_client("https://example.supabase.co", "K").unwrap();
    assert_eq!(client.header_value("Authorization").unwrap(), "Bearer K");
    assert_eq!(client.header_value("apikey").unwrap(), "K");
}

#[test]
fn auth_headers_with_bearer_token() {
    let config = SupabaseConfig::new("https://example.supabase.co", "K").jwt("T");
    let client = SupabaseClient::with_config(config).unwrap();
    assert_eq!(client.header_value("Authorization").unwrap(), "Bearer T");
    assert_eq!(client.header_value("apikey").unwrap(), "K");
}

#[test]
fn reauthentication_leaves_original_untouched() {
    let original = create_client("https://example.supabase.co", "K").unwrap();
    let renewed = original.with_jwt("T2").unwrap();
    assert_eq!(renewed.header_value("Authorization").unwrap(), "Bearer T2");
    assert_eq!(renewed.header_value("apikey").unwrap(), "K");
    assert_eq!(original.header_value("Authorization").unwrap(), "Bearer K");
    assert_eq!(original.header_value("apikey").unwrap(), "K");
}

#[test]
fn invalid_header_name_rejected() {
    let config = SupabaseConfig::new("https://example.supabase.co", "key").header("bad name", "v");
    match SupabaseClient::with_config(config) {
        Err(Error::InvalidHeader(piece)) => assert_eq!(piece, "bad name"),
        _ => panic!("expected an invalid header error"),
    }
}

#[test]
fn invalid_header_value_rejected() {
    let config =
        SupabaseConfig::new("https://example.supabase.co", "key").header("X-Test", "line\nbreak");
    match SupabaseClient::with_config(config) {
        Err(Error::InvalidHeader(piece)) => assert_eq!(piece, "line\nbreak"),
        _ => panic!("expected an invalid header error"),
    }
}

#[test]
fn invalid_api_key_rejected() {
    let err = match create_client("https://example.supabase.co", "bad\u{7f}key") {
        Err(e) => e,
        Ok(_) => panic!("expected an error"),
    };
    assert!(matches!(err, Error::InvalidHeader(_)));
}

#[test]
fn custom_header_lookup_is_case_insensitive() {
    let config = SupabaseConfig::new("https://example.supabase.co", "key").header("X-Test", "value");
    let client = SupabaseClient::with_config(config).unwrap();
    assert_eq!(client.header_value("x-test").unwrap(), "value");
    assert_eq!(client.header_value("X-TEST").unwrap(), "value");
    assert!(client.header_value("X-Absent").is_none());
}

#[test]
fn custom_header_overrides_builtin() {
    let config = SupabaseConfig::new("https://example.supabase.co", "key")
        .header("Authorization", "Bearer other");
    let client = SupabaseClient::with_config(config).unwrap();
    assert_eq!(client.header_value("Authorization").unwrap(), "Bearer other");
    assert_eq!(client.header_value("apikey").unwrap(), "key");
}

#[test]
fn client_exposes_config_and_urls() {
    let client = create_client("https://example.supabase.co", "key").unwrap();
    assert_eq!(client.config().url, "https://example.supabase.co");
    assert_eq!(client.realtime_url(), "wss://example.supabase.co/realtime/v1");
}

#[test]
fn query_builders_are_constructed() {
    let client = create_client("https://example.supabase.co", "key").unwrap();
    let _table_builder = client.from("users");
    let _rpc_builder = client.rpc("get_stats", "{}");
    let _http = client.http();
    let _postgrest = client.postgrest();
}
