use supabase_client_rs::SupabaseConfig;

#[test]
fn test_config_urls() {
    let config = SupabaseConfig::new("https://example.supabase.co", "key");
    assert_eq!(config.rest_url(), "https://example.supabase.co/rest/v1");
    assert_eq!(config.auth_url(), "https://example.supabase.co/auth/v1");
    assert_eq!(config.storage_url(), "https://example.supabase.co/storage/v1");
    assert_eq!(config.realtime_url(), "wss://example.supabase.co/realtime/v1");
    assert_eq!(config.functions_url(), "https://example.supabase.co/functions/v1");
}

#[test]
fn test_config_trailing_slash() {
    let config = SupabaseConfig::new("https://example.supabase.co/", "key");
    assert_eq!(config.rest_url(), "https://example.supabase.co/rest/v1");
}

#[test]
fn test_config_builder() {
    let config = SupabaseConfig::new("https://example.supabase.co", "key")
        .schema("custom")
        .timeout(60)
        .header("X-Test", "value")
        .auto_refresh_token(false);

    assert_eq!(config.schema, "custom");
    assert_eq!(config.timeout, 60);
    assert!(!config.auto_refresh_token);
}

#[test]
fn builder_keeps_defaults_and_header() {
    let config = SupabaseConfig::new("https://example.supabase.co", "key")
        .schema("custom")
        .timeout(60)
        .header("X-Test", "value")
        .auto_refresh_token(false);

    assert_eq!(config.url, "https://example.supabase.co");
    assert_eq!(config.api_key, "key");
    assert!(config.jwt.is_none());
    assert_eq!(config.headers.len(), 1);
    assert_eq!(config.headers[0].0, "X-Test");
    assert_eq!(config.headers[0].1, "value");
    assert!(config.persist_session);
}

#[test]
fn fresh_config_defaults() {
    let config = SupabaseConfig::new("https://example.supabase.co", "key");
    assert_eq!(config.schema, "public");
    assert_eq!(config.timeout, 30);
    assert!(config.jwt.is_none());
    assert!(config.headers.is_empty());
    assert!(config.auto_refresh_token);
    assert!(config.persist_session);
}

#[test]
fn realtime_url_http_scheme() {
    let config = SupabaseConfig::new("http://x.example.co", "key");
    assert_eq!(config.realtime_url(), "ws://x.example.co/realtime/v1");
}

#[test]
fn realtime_url_unrecognized_scheme() {
    let config = SupabaseConfig::new("ftp://x.example.co", "key");
    assert_eq!(config.realtime_url(), "ftp://x.example.co/realtime/v1");
}

#[test]
fn rest_url_strips_repeated_slashes() {
    let config = SupabaseConfig::new("https://example.supabase.co///", "key");
    assert_eq!(config.rest_url(), "https://example.supabase.co/rest/v1");
}

#[test]
fn jwt_builder_sets_token() {
    let config = SupabaseConfig::new("https://example.supabase.co", "key").jwt("user-token");
    assert_eq!(config.jwt.as_deref(), Some("user-token"));
}
