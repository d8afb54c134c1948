//! The outside capabilities the assembled client is built on: reqwest's
//! HTTP client and postgrest's query builder. Every item here is
//! trusted: its contract states what the outside crate's source shows,
//! and nothing more is assumed of it.

use vstd::prelude::*;

use crate::headers::{valid_header_name, valid_header_value};
use crate::text::ascii_lower;

verus! {

#[verifier::external_type_specification]
#[verifier::external_body]
#[verifier::reject_recursive_types(T)]
pub struct ExHeaderMap<T>(reqwest::header::HeaderMap<T>);

#[verifier::external_type_specification]
#[verifier::external_body]
pub struct ExHeaderName(reqwest::header::HeaderName);

#[verifier::external_type_specification]
#[verifier::external_body]
pub struct ExHeaderValue(reqwest::header::HeaderValue);

#[verifier::external_type_specification]
#[verifier::external_body]
pub struct ExClient(reqwest::Client);

#[verifier::external_type_specification]
#[verifier::external_body]
pub struct ExClientBuilder(reqwest::ClientBuilder);

#[verifier::external_type_specification]
#[verifier::external_body]
pub struct ExPostgrest(postgrest::Postgrest);

#[verifier::external_type_specification]
#[verifier::external_body]
pub struct ExBuilder(postgrest::Builder);

/// The lower-case name an opaque `HeaderName` holds.
pub uninterp spec fn name_chars(n: reqwest::header::HeaderName) -> Seq<char>;

/// The characters whose UTF-8 encoding an opaque `HeaderValue` holds.
pub uninterp spec fn value_chars(v: reqwest::header::HeaderValue) -> Seq<char>;

/// The entries a `HeaderMap` holds, keyed by the lower-case name; of a
/// name carrying several values, the last one inserted.
pub uninterp spec fn hm_contents(m: reqwest::header::HeaderMap) -> Map<Seq<char>, Seq<char>>;

/// The default headers an HTTP client builder is configured with.
pub uninterp spec fn cb_headers(b: reqwest::ClientBuilder) -> Map<Seq<char>, Seq<char>>;

/// The request timeout an HTTP client builder is configured with, where
/// it is a whole number of seconds.
pub uninterp spec fn cb_timeout(b: reqwest::ClientBuilder) -> Option<u64>;

/// The default headers a built HTTP client sends with every request.
pub uninterp spec fn client_headers(c: reqwest::Client) -> Map<Seq<char>, Seq<char>>;

/// The request timeout of a built HTTP client, where it is a whole
/// number of seconds.
pub uninterp spec fn client_timeout(c: reqwest::Client) -> Option<u64>;

/// The URL a postgrest client was created with.
pub uninterp spec fn pg_url(p: postgrest::Postgrest) -> Seq<char>;

/// The headers a postgrest client carries, keyed by the name folded to
/// ASCII lower case.
pub uninterp spec fn pg_headers(p: postgrest::Postgrest) -> Map<Seq<char>, Seq<char>>;

/// The URL a postgrest query builder will request.
pub uninterp spec fn builder_url(b: postgrest::Builder) -> Seq<char>;

/// The headers a postgrest query builder carries, keyed by the name
/// folded to ASCII lower case.
pub uninterp spec fn builder_headers(b: postgrest::Builder) -> Map<Seq<char>, Seq<char>>;

/// The request body a postgrest query builder starts with.
pub uninterp spec fn builder_body(b: postgrest::Builder) -> Option<Seq<char>>;

/// An empty header record.
pub open spec fn no_headers() -> Map<Seq<char>, Seq<char>> {
    Map::empty()
}

/// The default headers reqwest's client builder starts with: exactly an
/// `accept: */*` entry.
pub open spec fn reqwest_initial_headers() -> Map<Seq<char>, Seq<char>> {
    Map::empty().insert("accept"@, "*/*"@)
}

/// A header record with postgrest's `accept: application/json` entry
/// added, replacing any earlier value at that name.
pub open spec fn with_accept_json(hs: Map<Seq<char>, Seq<char>>) -> Map<Seq<char>, Seq<char>> {
    hs.insert("accept"@, "application/json"@)
}

/// Relies on http's `HeaderName::try_from::<&str>` (`from_bytes`): it
/// accepts exactly the non-empty names of at most 65535 header name
/// characters, rejects every other string, and stores the accepted name
/// folded to lower case.
#[verifier::external_body]
pub(crate) fn make_header_name(s: &str) -> (r: Option<reqwest::header::HeaderName>)
    ensures
        r is Some <==> valid_header_name(s@),
        r matches Some(n) ==> name_chars(n) == ascii_lower(s@),
{
    reqwest::header::HeaderName::try_from(s).ok()
}

/// Relies on http's `HeaderValue::from_str`: it accepts exactly the
/// strings of header value characters and stores the bytes verbatim.
#[verifier::external_body]
pub(crate) fn make_header_value(s: &str) -> (r: Option<reqwest::header::HeaderValue>)
    ensures
        r is Some <==> valid_header_value(s@),
        r matches Some(v) ==> value_chars(v) == s@,
{
    reqwest::header::HeaderValue::from_str(s).ok()
}

/// Relies on http's `HeaderMap::new`: an empty map.
#[verifier::external_body]
pub(crate) fn header_map_new() -> (r: reqwest::header::HeaderMap)
    ensures
        hm_contents(r) == no_headers(),
{
    reqwest::header::HeaderMap::new()
}

/// Relies on http's `HeaderMap::try_insert`: on success the value is
/// stored under the name, replacing every earlier value at it. It
/// refuses an entry only past the map's maximum usable capacity and
/// never panics; on refusal nothing is claimed of the map.
#[verifier::external_body]
pub(crate) fn header_map_insert(
    m: &mut reqwest::header::HeaderMap,
    name: reqwest::header::HeaderName,
    value: reqwest::header::HeaderValue,
) -> (r: bool)
    ensures
        r ==> hm_contents(*final(m)) == hm_contents(*old(m)).insert(
            name_chars(name),
            value_chars(value),
        ),
{
    m.try_insert(name, value).is_ok()
}

/// Relies on reqwest's `Client::builder` (`ClientBuilder::new`): it
/// starts with an `accept: */*` default header and no timeout.
#[verifier::external_body]
pub(crate) fn http_client_builder() -> (r: reqwest::ClientBuilder)
    ensures
        cb_headers(r) == reqwest_initial_headers(),
        cb_timeout(r) is None,
{
    reqwest::Client::builder()
}

/// Relies on reqwest's `ClientBuilder::default_headers`: each entry of
/// the given map is inserted into the builder's default headers,
/// replacing any earlier value at the same name; the timeout is kept.
#[verifier::external_body]
pub(crate) fn builder_default_headers(
    b: reqwest::ClientBuilder,
    headers: reqwest::header::HeaderMap,
) -> (r: reqwest::ClientBuilder)
    ensures
        cb_headers(r) == cb_headers(b).union_prefer_right(hm_contents(headers)),
        cb_timeout(r) == cb_timeout(b),
{
    b.default_headers(headers)
}

/// Relies on reqwest's `ClientBuilder::timeout`, given here in seconds;
/// the default headers are kept.
#[verifier::external_body]
pub(crate) fn builder_timeout(b: reqwest::ClientBuilder, secs: u64) -> (r: reqwest::ClientBuilder)
    ensures
        cb_headers(r) == cb_headers(b),
        cb_timeout(r) == Some(secs),
{
    b.timeout(core::time::Duration::from_secs(secs))
}

/// Relies on reqwest's `ClientBuilder::build`: the built client carries
/// the builder's default headers and timeout unchanged; on refusal
/// hands back the outside error's description.
#[verifier::external_body]
pub(crate) fn builder_build(b: reqwest::ClientBuilder) -> (r: Result<reqwest::Client, String>)
    ensures
        r matches Ok(c) ==> client_headers(c) == cb_headers(b) && client_timeout(c) == cb_timeout(
            b,
        ),
{
    match b.build() {
        Ok(c) => Ok(c),
        Err(e) => Err(e.to_string()),
    }
}

/// Relies on postgrest's `Postgrest::new`: it stores the URL as given
/// and starts with no headers.
#[verifier::external_body]
pub(crate) fn postgrest_new(url: &str) -> (r: postgrest::Postgrest)
    ensures
        pg_url(r) == url@,
        pg_headers(r) == no_headers(),
{
    postgrest::Postgrest::new(url)
}

/// Relies on postgrest's `Postgrest::insert_header`: it stores the value
/// under the name folded to lower case, replacing any earlier value, and
/// keeps the URL. It panics on an invalid name or value, and its map
/// refuses a new name once it holds 24576 of them (three quarters of its
/// 32768 slots), so validity and room are required.
#[verifier::external_body]
pub(crate) fn postgrest_insert_header(
    p: postgrest::Postgrest,
    name: &'static str,
    value: &str,
) -> (q: postgrest::Postgrest)
    requires
        valid_header_name(name@),
        valid_header_value(value@),
        pg_headers(p).dom().finite(),
        pg_headers(p).dom().len() < 24576,
    ensures
        pg_url(q) == pg_url(p),
        pg_headers(q) == pg_headers(p).insert(ascii_lower(name@), value@),
{
    p.insert_header(name, value)
}

/// Relies on postgrest's `Postgrest::from` and `Builder::new`: a query
/// builder aimed at the stored URL joined with `/` and the table name,
/// carrying the stored headers plus an `accept: application/json`
/// entry, with no body. `Builder::new` inserts into a map copied from
/// the client, so the same room is required as for an insert.
#[verifier::external_body]
pub(crate) fn postgrest_from(p: &postgrest::Postgrest, table: &str) -> (r: postgrest::Builder)
    requires
        pg_headers(*p).dom().finite(),
        pg_headers(*p).dom().len() < 24576,
    ensures
        builder_url(r) == pg_url(*p) + "/"@ + table@,
        builder_headers(r) == with_accept_json(pg_headers(*p)),
        builder_body(r) is None,
{
    p.from(table)
}

/// Relies on postgrest's `Postgrest::rpc` and `Builder::rpc`: a query
/// builder aimed at the stored URL joined with `/rpc/` and the function
/// name, carrying the stored headers plus an `accept: application/json`
/// entry, with the parameters as its body. The same room is required as
/// for an insert.
#[verifier::external_body]
pub(crate) fn postgrest_rpc(
    p: &postgrest::Postgrest,
    function: &str,
    params: &str,
) -> (r: postgrest::Builder)
    requires
        pg_headers(*p).dom().finite(),
        pg_headers(*p).dom().len() < 24576,
    ensures
        builder_url(r) == pg_url(*p) + "/rpc/"@ + function@,
        builder_headers(r) == with_accept_json(pg_headers(*p)),
        builder_body(r) == Some(params@),
{
    p.rpc(function, params)
}

} // verus!
