//! The main Supabase client: configuration validation, authentication
//! header assembly, and construction of the HTTP and query-builder
//! capabilities.

use vstd::prelude::*;

use crate::capability::{
    builder_body, builder_build, builder_default_headers, builder_headers, builder_timeout,
    builder_url, client_headers, client_timeout, header_map_insert, header_map_new,
    hm_contents, http_client_builder, make_header_name, make_header_value, name_chars,
    no_headers, pg_headers, pg_url, postgrest_from, postgrest_insert_header, postgrest_new,
    postgrest_rpc, reqwest_initial_headers, value_chars, with_accept_json,
};
use crate::config::{initial_config, realtime_url_of, rest_url_of, ConfigModel, SupabaseConfig};
use crate::error::Error;
use crate::headers::{
    assembly_fault, auth_value_of, header_map_of, header_plan, lemma_builtin_names_valid,
    lemma_first_custom_fault_skip, plan_lookup, plan_valid, valid_header_name,
    valid_header_value,
};
use crate::text::{ascii_eq_ignore_case, ascii_lower};

verus! {

/// The main Supabase client: the configuration it was assembled from,
/// plus the HTTP capability and the PostgREST query-builder capability
/// constructed with the authentication headers baked in.
pub struct SupabaseClient {
    config: SupabaseConfig,
    http: reqwest::Client,
    postgrest: postgrest::Postgrest,
}

/// What holds of a client assembled from the model `m`: it keeps the
/// configuration; its query-builder capability points at the REST
/// endpoint and carries exactly the `apikey` and `Authorization`
/// headers; and its HTTP capability carries the whole assembled header
/// set as default headers — over reqwest's own initial `accept` entry,
/// a later plan entry winning at a shared name — and the configured
/// timeout.
pub open spec fn assembled_ok(m: ConfigModel, client: SupabaseClient) -> bool {
    &&& client.config_model() == m
    &&& pg_url(client.postgrest_cap()) == rest_url_of(m.url)
    &&& pg_headers(client.postgrest_cap()) == no_headers().insert(
        ascii_lower("apikey"@),
        m.api_key,
    ).insert(ascii_lower("Authorization"@), auth_value_of(m))
    &&& client_headers(client.http_cap()) == reqwest_initial_headers().union_prefer_right(
        header_map_of(header_plan(m)),
    )
    &&& client_timeout(client.http_cap()) == Some(m.timeout)
}

/// The contract of assembly on the model `m`: an empty URL fails with
/// `MissingUrl`, an empty API key with `MissingKey`, a syntactically
/// invalid header with `InvalidHeader` carrying the first offending
/// piece; on a valid configuration only the HTTP capability itself may
/// still refuse construction, and an assembled client satisfies
/// [`assembled_ok`].
pub open spec fn assemble_result(m: ConfigModel, r: Result<SupabaseClient, Error>) -> bool {
    &&& (m.url.len() == 0 ==> r matches Err(Error::MissingUrl))
    &&& (m.url.len() > 0 && m.api_key.len() == 0 ==> r matches Err(Error::MissingKey))
    &&& (m.url.len() > 0 && m.api_key.len() > 0 && !plan_valid(m) ==> (r matches Err(
        Error::InvalidHeader(s),
    ) && s@ == assembly_fault(m)))
    &&& (m.url.len() > 0 && m.api_key.len() > 0 && plan_valid(m) ==> match r {
        Ok(client) => assembled_ok(m, client),
        Err(e) => e matches Error::CapabilityConstructionFailed(_),
    })
    &&& (r matches Ok(client) ==> m.url.len() > 0 && m.api_key.len() > 0 && plan_valid(m))
}

impl SupabaseClient {
    /// Every client is assembled with two seeded headers, so its
    /// query-builder capability always has room for the header the
    /// outside crate adds when a query builder is made.
    #[verifier::type_invariant]
    spec fn wf(self) -> bool {
        &&& pg_headers(self.postgrest).dom().finite()
        &&& pg_headers(self.postgrest).dom().len() < 24576
    }

    /// The model of the configuration this client was assembled from.
    pub closed spec fn config_model(&self) -> ConfigModel {
        self.config@
    }

    /// The HTTP capability, as an opaque value.
    pub closed spec fn http_cap(&self) -> reqwest::Client {
        self.http
    }

    /// The query-builder capability, as an opaque value.
    pub closed spec fn postgrest_cap(&self) -> postgrest::Postgrest {
        self.postgrest
    }

    /// Create a new Supabase client with the given URL and API key.
    pub fn new(url: &str, api_key: &str) -> (r: Result<SupabaseClient, Error>)
        ensures
            assemble_result(initial_config(url@, api_key@), r),
    {
        let config = SupabaseConfig::new(url, api_key);
        Self::with_config(config)
    }

    /// Create a new Supabase client with custom configuration: validate
    /// it, build the authentication header set, and construct the HTTP
    /// and query-builder capabilities with those headers baked in.
    pub fn with_config(config: SupabaseConfig) -> (r: Result<SupabaseClient, Error>)
        ensures
            assemble_result(config@, r),
    {
        if config.url.as_str().is_empty() {
            return Err(Error::MissingUrl);
        }
        if config.api_key.as_str().is_empty() {
            return Err(Error::MissingKey);
        }
        // The Authorization value: the JWT when set, the API key otherwise.
        let auth_string = match &config.jwt {
            Some(jwt) => String::from_str("Bearer ").concat(jwt.as_str()),
            None => String::from_str("Bearer ").concat(config.api_key.as_str()),
        };
        proof {
            assert(auth_string@ == auth_value_of(config@));
        }
        // Validate the built-in header values.
        let api_value = match make_header_value(config.api_key.as_str()) {
            Some(v) => v,
            None => {
                return Err(Error::InvalidHeader(config.api_key.clone()));
            },
        };
        let auth_value = match make_header_value(auth_string.as_str()) {
            Some(v) => v,
            None => {
                return Err(Error::InvalidHeader(auth_string));
            },
        };
        // Validate each custom header, name before value, in order.
        let mut pairs: Vec<(reqwest::header::HeaderName, reqwest::header::HeaderValue)> =
            Vec::new();
        let mut i: usize = 0;
        while i < config.headers.len()
            invariant
                i <= config.headers@.len(),
                pairs@.len() == i,
                config@.url.len() > 0,
                config@.api_key.len() > 0,
                valid_header_value(config@.api_key),
                valid_header_value(auth_value_of(config@)),
                forall|j: int|
                    0 <= j < i ==> valid_header_name((#[trigger] config@.headers[j]).0)
                        && valid_header_value(config@.headers[j].1),
                forall|j: int|
                    0 <= j < i ==> name_chars((#[trigger] pairs@[j]).0) == ascii_lower(
                        config@.headers[j].0,
                    ) && value_chars(pairs@[j].1) == config@.headers[j].1,
            decreases config.headers@.len() - i,
        {
            proof {
                assert(config@.headers[i as int] == (
                    config.headers@[i as int].0@,
                    config.headers@[i as int].1@,
                ));
            }
            let name = match make_header_name(config.headers[i].0.as_str()) {
                Some(n) => n,
                None => {
                    proof {
                        lemma_first_custom_fault_skip(config@.headers, i as int);
                        assert(config@.headers.skip(i as int)[0] == config@.headers[i as int]);
                        assert(assembly_fault(config@) == config@.headers[i as int].0);
                        assert(!plan_valid(config@));
                    }
                    return Err(Error::InvalidHeader(config.headers[i].0.clone()));
                },
            };
            let value = match make_header_value(config.headers[i].1.as_str()) {
                Some(v) => v,
                None => {
                    proof {
                        lemma_first_custom_fault_skip(config@.headers, i as int);
                        assert(config@.headers.skip(i as int)[0] == config@.headers[i as int]);
                        assert(assembly_fault(config@) == config@.headers[i as int].1);
                        assert(!plan_valid(config@));
                    }
                    return Err(Error::InvalidHeader(config.headers[i].1.clone()));
                },
            };
            pairs.push((name, value));
            i = i + 1;
        }
        proof {
            assert(plan_valid(config@));
            lemma_builtin_names_valid();
        }
        let ghost plan = header_plan(config@);
        // Build the default header map for the HTTP capability.
        let mut header_map = header_map_new();
        let apikey_name = make_header_name("apikey").unwrap();
        if !header_map_insert(&mut header_map, apikey_name, api_value) {
            return Err(Error::CapabilityConstructionFailed(
                String::from_str("header map refused an entry"),
            ));
        }
        let auth_name = make_header_name("Authorization").unwrap();
        if !header_map_insert(&mut header_map, auth_name, auth_value) {
            return Err(Error::CapabilityConstructionFailed(
                String::from_str("header map refused an entry"),
            ));
        }
        proof {
            assert(plan[0] == ("apikey"@, config@.api_key));
            assert(plan[1] == ("Authorization"@, auth_value_of(config@)));
            assert(plan.take(1).drop_last() =~= plan.take(0));
            assert(plan.take(0).len() == 0);
            assert(plan.take(1).last() == plan[0]);
            assert(plan.take(2).drop_last() =~= plan.take(1));
            assert(plan.take(2).last() == plan[1]);
            assert(name_chars(apikey_name) == ascii_lower("apikey"@));
            assert(value_chars(api_value) == config@.api_key);
            assert(name_chars(auth_name) == ascii_lower("Authorization"@));
            assert(value_chars(auth_value) == auth_value_of(config@));
            assert(header_map_of(plan.take(0)) == no_headers());
            assert(header_map_of(plan.take(1)) == no_headers().insert(
                ascii_lower("apikey"@),
                config@.api_key,
            ));
            assert(hm_contents(header_map) == header_map_of(plan.take(2)));
        }
        let ghost all_pairs = pairs@;
        let ghost mut k: int = 0;
        while pairs.len() > 0
            invariant
                config@.url.len() > 0,
                config@.api_key.len() > 0,
                plan_valid(config@),
                plan == header_plan(config@),
                plan.len() == 2 + config.headers@.len(),
                all_pairs.len() == config.headers@.len(),
                0 <= k,
                k + pairs@.len() == all_pairs.len(),
                pairs@ == all_pairs.skip(k),
                forall|j: int|
                    0 <= j < all_pairs.len() ==> name_chars((#[trigger] all_pairs[j]).0)
                        == ascii_lower(config@.headers[j].0) && value_chars(all_pairs[j].1)
                        == config@.headers[j].1,
                hm_contents(header_map) == header_map_of(plan.take(2 + k)),
            decreases pairs@.len(),
        {
            let pair = pairs.remove(0);
            proof {
                assert(pair == all_pairs[k]);
                assert(pairs@ =~= all_pairs.skip(k + 1));
                assert(plan[2 + k] == config@.headers[k]);
            }
            if !header_map_insert(&mut header_map, pair.0, pair.1) {
                return Err(Error::CapabilityConstructionFailed(
                    String::from_str("header map refused an entry"),
                ));
            }
            proof {
                assert(plan.take(2 + k + 1).drop_last() =~= plan.take(2 + k));
                assert(plan.take(2 + k + 1).last() == plan[2 + k]);
                k = k + 1;
            }
        }
        proof {
            assert(plan.take(2 + k) =~= plan);
            assert(hm_contents(header_map) == header_map_of(plan));
        }
        // Construct the HTTP capability.
        let builder = builder_timeout(
            builder_default_headers(http_client_builder(), header_map),
            config.timeout,
        );
        let http = match builder_build(builder) {
            Ok(client) => client,
            Err(description) => {
                return Err(Error::CapabilityConstructionFailed(description));
            },
        };
        // Construct the query-builder capability, pre-seeded with the
        // authentication headers.
        let rest = config.rest_url();
        let pg = postgrest_new(rest.as_str());
        proof {
            assert(pg_headers(pg).dom() =~= Set::<Seq<char>>::empty());
        }
        let pg = postgrest_insert_header(pg, "apikey", config.api_key.as_str());
        proof {
            assert(pg_headers(pg).dom() =~= Set::<Seq<char>>::empty().insert(
                ascii_lower("apikey"@),
            ));
        }
        let pg = postgrest_insert_header(pg, "Authorization", auth_string.as_str());
        proof {
            assert(pg_headers(pg).dom() =~= Set::<Seq<char>>::empty().insert(
                ascii_lower("apikey"@),
            ).insert(ascii_lower("Authorization"@)));
            assert(pg_headers(pg).dom().finite());
            assert(pg_headers(pg).dom().len() <= 2);
        }
        Ok(SupabaseClient { config, http, postgrest: pg })
    }

    /// Create a query builder for the given table; forwarded verbatim
    /// to the query-builder capability: the builder aims at the stored
    /// REST URL joined with the table name and carries the stored
    /// headers, with the JSON accept entry the capability adds.
    pub fn from(&self, table: &str) -> (r: postgrest::Builder)
        ensures
            builder_url(r) == pg_url(self.postgrest_cap()) + "/"@ + table@,
            builder_headers(r) == with_accept_json(pg_headers(self.postgrest_cap())),
            builder_body(r) is None,
    {
        proof {
            use_type_invariant(&*self);
        }
        postgrest_from(&self.postgrest, table)
    }

    /// Execute a stored procedure (RPC); forwarded verbatim to the
    /// query-builder capability: the builder aims at the stored REST
    /// URL joined with `/rpc/` and the procedure name, carries the
    /// stored headers with the JSON accept entry, and takes the
    /// parameters as its body.
    pub fn rpc(&self, function: &str, params: &str) -> (r: postgrest::Builder)
        ensures
            builder_url(r) == pg_url(self.postgrest_cap()) + "/rpc/"@ + function@,
            builder_headers(r) == with_accept_json(pg_headers(self.postgrest_cap())),
            builder_body(r) == Some(params@),
    {
        proof {
            use_type_invariant(&*self);
        }
        postgrest_rpc(&self.postgrest, function, params)
    }

    /// Get the configuration.
    pub fn config(&self) -> (r: &SupabaseConfig)
        ensures
            r@ == self.config_model(),
    {
        &self.config
    }

    /// Get the underlying HTTP client.
    pub fn http(&self) -> (r: &reqwest::Client)
        ensures
            *r == self.http_cap(),
    {
        &self.http
    }

    /// Get the PostgREST client.
    pub fn postgrest(&self) -> (r: &postgrest::Postgrest)
        ensures
            *r == self.postgrest_cap(),
    {
        &self.postgrest
    }

    /// Get the Realtime WebSocket URL.
    pub fn realtime_url(&self) -> (r: String)
        ensures
            r@ == realtime_url_of(self.config_model().url),
    {
        self.config.realtime_url()
    }

    /// Set a JWT for authenticated requests: re-runs assembly on a
    /// configuration equal to this client's except for the token. This
    /// client is left untouched and usable beside the new one.
    pub fn with_jwt(&self, jwt: &str) -> (r: Result<SupabaseClient, Error>)
        ensures
            assemble_result(self.config_model().with_jwt(jwt@), r),
    {
        let new_config = SupabaseConfig {
            url: self.config.url.clone(),
            api_key: self.config.api_key.clone(),
            jwt: Some(String::from_str(jwt)),
            schema: self.config.schema.clone(),
            timeout: self.config.timeout,
            headers: clone_string_pairs(&self.config.headers),
            auto_refresh_token: self.config.auto_refresh_token,
            persist_session: self.config.persist_session,
        };
        proof {
            assert(new_config@ =~= self.config_model().with_jwt(jwt@));
        }
        Self::with_config(new_config)
    }

    /// The value the assembled header set carries at `name`, matched up
    /// to ASCII letter case: the last custom header with that name, or
    /// the built-in `Authorization` or `apikey` entry.
    pub fn header_value(&self, name: &str) -> (r: Option<String>)
        ensures
            match r {
                Some(v) => plan_lookup(header_plan(self.config_model()), name@) == Some(v@),
                None => plan_lookup(header_plan(self.config_model()), name@) is None,
            },
    {
        let ghost plan = header_plan(self.config_model());
        let mut i: usize = self.config.headers.len();
        proof {
            assert(plan.take(i as int + 2) =~= plan);
        }
        while i > 0
            invariant
                i <= self.config.headers@.len(),
                plan == header_plan(self.config_model()),
                plan.len() == 2 + self.config.headers@.len(),
                plan_lookup(plan, name@) == plan_lookup(plan.take(i as int + 2), name@),
            decreases i,
        {
            proof {
                assert(plan.take(i as int + 2).last() == plan[i as int + 1]);
                assert(plan[i as int + 1] == self.config_model().headers[i - 1]);
                assert(self.config_model().headers[i - 1] == (
                    self.config.headers@[i - 1].0@,
                    self.config.headers@[i - 1].1@,
                ));
            }
            if ascii_eq_ignore_case(self.config.headers[i - 1].0.as_str(), name) {
                return Some(self.config.headers[i - 1].1.clone());
            }
            proof {
                assert(plan.take(i as int + 2).drop_last() =~= plan.take(i as int + 1));
            }
            i = i - 1;
        }
        proof {
            assert(plan[0] == ("apikey"@, self.config_model().api_key));
            assert(plan[1] == ("Authorization"@, auth_value_of(self.config_model())));
            assert(plan.take(2).last() == plan[1]);
        }
        if ascii_eq_ignore_case("Authorization", name) {
            let auth_string = match &self.config.jwt {
                Some(jwt) => String::from_str("Bearer ").concat(jwt.as_str()),
                None => String::from_str("Bearer ").concat(self.config.api_key.as_str()),
            };
            proof {
                assert(auth_string@ == auth_value_of(self.config_model()));
            }
            return Some(auth_string);
        }
        proof {
            assert(plan.take(2).drop_last() =~= plan.take(1));
            assert(plan_lookup(plan.take(2), name@) == plan_lookup(plan.take(1), name@));
            assert(plan.take(1).last() == plan[0]);
        }
        if ascii_eq_ignore_case("apikey", name) {
            proof {
                assert(plan_lookup(plan.take(1), name@) == Some(self.config_model().api_key));
            }
            return Some(self.config.api_key.clone());
        }
        proof {
            assert(plan.take(1).drop_last() =~= plan.take(0));
            assert(plan_lookup(plan.take(1), name@) == plan_lookup(plan.take(0), name@));
            assert(plan.take(0).len() == 0);
            assert(plan_lookup(plan.take(0), name@) is None);
        }
        None
    }
}

/// Copies a list of header pairs.
fn clone_string_pairs(v: &Vec<(String, String)>) -> (r: Vec<(String, String)>)
    ensures
        r@ == v@,
{
    let mut out: Vec<(String, String)> = Vec::new();
    let mut i: usize = 0;
    proof {
        assert(out@ =~= v@.subrange(0, 0));
    }
    while i < v.len()
        invariant
            i <= v@.len(),
            out@ == v@.subrange(0, i as int),
        decreases v@.len() - i,
    {
        let p = &v[i];
        let q = (p.0.clone(), p.1.clone());
        proof {
            assert(q == v@[i as int]);
            assert(out@.push(q) =~= v@.subrange(0, i as int + 1));
        }
        out.push(q);
        i = i + 1;
    }
    proof {
        assert(v@.subrange(0, v@.len() as int) =~= v@);
    }
    out
}

} // verus!
