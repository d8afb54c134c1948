//! Configuration for the client: connection parameters and the derived
//! service endpoint URLs.

use vstd::prelude::*;

use crate::text::{
    lemma_strip_no_trailing_slash, lemma_strip_push_slash, str_starts_with,
    strip_trailing_slashes, trim_trailing_slashes,
};

verus! {

/// The mathematical model of a configuration: every field as a plain
/// value or character sequence.
#[verifier::ext_equal]
pub ghost struct ConfigModel {
    pub url: Seq<char>,
    pub api_key: Seq<char>,
    pub jwt: Option<Seq<char>>,
    pub schema: Seq<char>,
    pub timeout: u64,
    pub headers: Seq<(Seq<char>, Seq<char>)>,
    pub auto_refresh_token: bool,
    pub persist_session: bool,
}

impl ConfigModel {
    /// The model with the schema replaced.
    pub open spec fn with_schema(self, schema: Seq<char>) -> ConfigModel {
        ConfigModel { schema, ..self }
    }

    /// The model with the timeout replaced.
    pub open spec fn with_timeout(self, timeout: u64) -> ConfigModel {
        ConfigModel { timeout, ..self }
    }

    /// The model with a bearer token set.
    pub open spec fn with_jwt(self, jwt: Seq<char>) -> ConfigModel {
        ConfigModel { jwt: Some(jwt), ..self }
    }

    /// The model with one custom header appended.
    pub open spec fn with_header(self, key: Seq<char>, value: Seq<char>) -> ConfigModel {
        ConfigModel { headers: self.headers.push((key, value)), ..self }
    }

    /// The model with the token auto-refresh flag replaced.
    pub open spec fn with_auto_refresh_token(self, enabled: bool) -> ConfigModel {
        ConfigModel { auto_refresh_token: enabled, ..self }
    }

    /// The model with the session persistence flag replaced.
    pub open spec fn with_persist_session(self, enabled: bool) -> ConfigModel {
        ConfigModel { persist_session: enabled, ..self }
    }
}

/// The model of a configuration fresh from [`SupabaseConfig::new`]:
/// the given URL and key, and every other field at its default.
pub open spec fn initial_config(url: Seq<char>, api_key: Seq<char>) -> ConfigModel {
    ConfigModel {
        url,
        api_key,
        jwt: None,
        schema: "public"@,
        timeout: 30,
        headers: Seq::empty(),
        auto_refresh_token: true,
        persist_session: true,
    }
}

/// Configuration options for the Supabase client.
#[derive(Debug, Clone)]
pub struct SupabaseConfig {
    /// The Supabase project URL (e.g., `https://xyzcompany.supabase.co`)
    pub url: String,
    /// The Supabase API key (anon key or service role key)
    pub api_key: String,
    /// Optional JWT for authenticated requests
    pub jwt: Option<String>,
    /// Custom schema (default: "public")
    pub schema: String,
    /// Request timeout, in seconds
    pub timeout: u64,
    /// Custom headers to include in all requests
    pub headers: Vec<(String, String)>,
    /// Auto-refresh token settings
    pub auto_refresh_token: bool,
    /// Persist session
    pub persist_session: bool,
}

impl View for SupabaseConfig {
    type V = ConfigModel;

    open spec fn view(&self) -> ConfigModel {
        ConfigModel {
            url: self.url@,
            api_key: self.api_key@,
            jwt: self.jwt.deep_view(),
            schema: self.schema@,
            timeout: self.timeout,
            headers: self.headers.deep_view(),
            auto_refresh_token: self.auto_refresh_token,
            persist_session: self.persist_session,
        }
    }
}

/// The REST endpoint derived from a base URL.
pub open spec fn rest_url_of(base: Seq<char>) -> Seq<char> {
    strip_trailing_slashes(base) + "/rest/v1"@
}

/// The Auth endpoint derived from a base URL.
pub open spec fn auth_url_of(base: Seq<char>) -> Seq<char> {
    strip_trailing_slashes(base) + "/auth/v1"@
}

/// The Storage endpoint derived from a base URL.
pub open spec fn storage_url_of(base: Seq<char>) -> Seq<char> {
    strip_trailing_slashes(base) + "/storage/v1"@
}

/// The Functions endpoint derived from a base URL.
pub open spec fn functions_url_of(base: Seq<char>) -> Seq<char> {
    strip_trailing_slashes(base) + "/functions/v1"@
}

/// A base with a recognized HTTP scheme prefix replaced by the matching
/// WebSocket scheme; an unrecognized scheme is left as it stands.
pub open spec fn websocket_base(base: Seq<char>) -> Seq<char> {
    if base.len() >= 8 && base.subrange(0, 8) == "https://"@ {
        "wss://"@ + base.skip(8)
    } else if base.len() >= 7 && base.subrange(0, 7) == "http://"@ {
        "ws://"@ + base.skip(7)
    } else {
        base
    }
}

/// The Realtime WebSocket endpoint derived from a base URL.
pub open spec fn realtime_url_of(base: Seq<char>) -> Seq<char> {
    websocket_base(strip_trailing_slashes(base)) + "/realtime/v1"@
}

impl SupabaseConfig {
    /// Create a new configuration with the given URL and API key.
    pub fn new(url: &str, api_key: &str) -> (r: Self)
        ensures
            r@ == initial_config(url@, api_key@),
    {
        let r = SupabaseConfig {
            url: String::from_str(url),
            api_key: String::from_str(api_key),
            jwt: None,
            schema: String::from_str("public"),
            timeout: 30,
            headers: Vec::new(),
            auto_refresh_token: true,
            persist_session: true,
        };
        proof {
            assert(r@ =~= initial_config(url@, api_key@));
        }
        r
    }

    /// Set a custom schema.
    pub fn schema(self, schema: &str) -> (r: Self)
        ensures
            r@ == self@.with_schema(schema@),
    {
        let mut c = self;
        c.schema = String::from_str(schema);
        proof {
            assert(c@ =~= self@.with_schema(schema@));
        }
        c
    }

    /// Set the request timeout, in seconds.
    pub fn timeout(self, timeout: u64) -> (r: Self)
        ensures
            r@ == self@.with_timeout(timeout),
    {
        let mut c = self;
        c.timeout = timeout;
        proof {
            assert(c@ =~= self@.with_timeout(timeout));
        }
        c
    }

    /// Set a JWT for authenticated requests.
    pub fn jwt(self, jwt: &str) -> (r: Self)
        ensures
            r@ == self@.with_jwt(jwt@),
    {
        let mut c = self;
        c.jwt = Some(String::from_str(jwt));
        proof {
            assert(c@ =~= self@.with_jwt(jwt@));
        }
        c
    }

    /// Add a custom header.
    pub fn header(self, key: &str, value: &str) -> (r: Self)
        ensures
            r@ == self@.with_header(key@, value@),
    {
        let mut c = self;
        c.headers.push((String::from_str(key), String::from_str(value)));
        proof {
            assert(c@ =~= self@.with_header(key@, value@));
        }
        c
    }

    /// Enable or disable token auto-refresh.
    pub fn auto_refresh_token(self, enabled: bool) -> (r: Self)
        ensures
            r@ == self@.with_auto_refresh_token(enabled),
    {
        let mut c = self;
        c.auto_refresh_token = enabled;
        proof {
            assert(c@ =~= self@.with_auto_refresh_token(enabled));
        }
        c
    }

    /// Enable or disable session persistence.
    pub fn persist_session(self, enabled: bool) -> (r: Self)
        ensures
            r@ == self@.with_persist_session(enabled),
    {
        let mut c = self;
        c.persist_session = enabled;
        proof {
            assert(c@ =~= self@.with_persist_session(enabled));
        }
        c
    }

    /// Get the REST API URL.
    pub fn rest_url(&self) -> (r: String)
        ensures
            r@ == rest_url_of(self@.url),
    {
        trim_trailing_slashes(self.url.as_str()).concat("/rest/v1")
    }

    /// Get the Auth API URL.
    pub fn auth_url(&self) -> (r: String)
        ensures
            r@ == auth_url_of(self@.url),
    {
        trim_trailing_slashes(self.url.as_str()).concat("/auth/v1")
    }

    /// Get the Storage API URL.
    pub fn storage_url(&self) -> (r: String)
        ensures
            r@ == storage_url_of(self@.url),
    {
        trim_trailing_slashes(self.url.as_str()).concat("/storage/v1")
    }

    /// Get the Functions URL.
    pub fn functions_url(&self) -> (r: String)
        ensures
            r@ == functions_url_of(self@.url),
    {
        trim_trailing_slashes(self.url.as_str()).concat("/functions/v1")
    }

    /// Get the Realtime URL.
    pub fn realtime_url(&self) -> (r: String)
        ensures
            r@ == realtime_url_of(self@.url),
    {
        let base = trim_trailing_slashes(self.url.as_str());
        let ws = if str_starts_with(base.as_str(), "https://") {
            proof {
                reveal_strlit("https://");
            }
            let tail = base.as_str().substring_char(8, base.as_str().unicode_len());
            proof {
                assert(tail@ =~= base@.skip(8));
            }
            String::from_str("wss://").concat(tail)
        } else if str_starts_with(base.as_str(), "http://") {
            proof {
                reveal_strlit("https://");
                reveal_strlit("http://");
            }
            let tail = base.as_str().substring_char(7, base.as_str().unicode_len());
            proof {
                assert(tail@ =~= base@.skip(7));
            }
            String::from_str("ws://").concat(tail)
        } else {
            proof {
                reveal_strlit("https://");
                reveal_strlit("http://");
            }
            base
        };
        ws.concat("/realtime/v1")
    }
}

/// Law: a base URL without a trailing slash yields its REST endpoint by
/// appending the REST suffix, and exactly one trailing slash yields the
/// identical endpoint.
pub proof fn lemma_rest_url_trailing_slash(base: Seq<char>)
    requires
        base.len() > 0,
        base.last() != '/',
    ensures
        rest_url_of(base) == base + "/rest/v1"@,
        rest_url_of(base.push('/')) == base + "/rest/v1"@,
{
    lemma_strip_no_trailing_slash(base);
    lemma_strip_push_slash(base);
}

/// Law: chaining the schema, timeout, header and auto-refresh builders on
/// a fresh configuration sets exactly those four fields; every other field
/// keeps its documented default.
pub proof fn lemma_builder_chain(
    url: Seq<char>,
    api_key: Seq<char>,
    schema: Seq<char>,
    timeout: u64,
    header_name: Seq<char>,
    header_value: Seq<char>,
    refresh: bool,
)
    ensures
        ({
            let c = initial_config(url, api_key).with_schema(schema).with_timeout(
                timeout,
            ).with_header(header_name, header_value).with_auto_refresh_token(refresh);
            &&& c.schema == schema
            &&& c.timeout == timeout
            &&& c.headers == seq![(header_name, header_value)]
            &&& c.auto_refresh_token == refresh
            &&& c.url == url
            &&& c.api_key == api_key
            &&& c.jwt is None
            &&& c.persist_session == true
        }),
{
    let c = initial_config(url, api_key).with_schema(schema).with_timeout(timeout).with_header(
        header_name,
        header_value,
    ).with_auto_refresh_token(refresh);
    assert(c.headers =~= seq![(header_name, header_value)]);
}

} // verus!
