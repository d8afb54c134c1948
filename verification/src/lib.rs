//! A Supabase client facade: configuration, endpoint derivation, and
//! authenticated client assembly over a PostgREST query builder and an
//! HTTP client.

mod capability;
mod client;
mod config;
mod error;
mod headers;
mod text;

pub use capability::{
    builder_body, builder_headers, builder_url, client_headers, client_timeout, pg_headers,
    pg_url, reqwest_initial_headers, with_accept_json,
};
pub use client::{assemble_result, assembled_ok, SupabaseClient};
pub use config::{
    initial_config, lemma_builder_chain, lemma_rest_url_trailing_slash, ConfigModel,
    SupabaseConfig,
};
pub use error::Error;
pub use headers::{
    auth_value_of, header_map_of, header_plan, lemma_authentication_headers,
    lemma_header_map_of_lookup, lemma_reauthentication, plan_lookup, plan_valid,
};
pub use text::strip_trailing_slashes;

use vstd::prelude::*;

verus! {

/// Create a new Supabase client; a convenience function equivalent to
/// [`SupabaseClient::new`].
pub fn create_client(url: &str, api_key: &str) -> (r: Result<SupabaseClient, Error>)
    ensures
        assemble_result(initial_config(url@, api_key@), r),
{
    SupabaseClient::new(url, api_key)
}

} // verus!
