//! The dispatcher's computing half: it prepares the full description of
//! an outbound GET or POST — resolved URL, gated query parameters, the
//! fixed search body, and the signed header set — and normalizes what
//! the transport hands back. Sending the request is a collaborator's
//! concern; an envelope comes back for any HTTP status, and only a
//! transport-level failure is an error.

use vstd::prelude::*;

use crate::config::KnifeConfig;
use crate::crypto::{is_rsa_private_pem, is_utc_timestamp};
use crate::errors::KnifeError;
use crate::headers::{header_views, headers_of, opt_body_view, request_headers};
use crate::sign::{b64_sha1, canonical_fits, signature_of};
use vstd::string::StringExecFns;
use vstd::utf8::encode_utf8;

verus! {

/// The server's answer: the raw status code and the raw body text. The
/// core never parses or interprets the body.
#[derive(Debug, Clone, PartialEq, Eq)]
pub struct ChefServerResponse {
    pub status: u16,
    pub body: String,
}

/// The full description of one outbound request, built in one pass and
/// handed as an immutable value to the transport.
#[derive(Debug, Clone)]
pub struct RequestEnvelope {
    /// `GET` or `POST`.
    pub method: String,
    /// The absolute URL: base URL joined with the request path.
    pub url: String,
    /// Query parameters, in order; empty when no search query was given.
    pub query: Vec<(String, String)>,
    /// The signed header set, in order.
    pub headers: Vec<(String, String)>,
    /// The body text, `None` for GET.
    pub body: Option<String>,
}

/// Whether url's parse-then-join accepts `base` with `path`.
pub uninterp spec fn url_join_ok(base: Seq<char>, path: Seq<char>) -> bool;

/// The text of the URL that url's parse-then-join produces; a function
/// of the two texts alone.
pub uninterp spec fn url_join_of(base: Seq<char>, path: Seq<char>) -> Seq<char>;

/// Relies on url's `Url::parse` and `Url::join`: one resolution step,
/// deterministic in the two texts, returned as text.
#[verifier::external_body]
fn resolve_url(base: &str, path: &str) -> (r: Option<String>)
    ensures
        r matches Some(u) ==> u@ == url_join_of(base@, path@) && url_join_ok(base@, path@),
        r is None ==> !url_join_ok(base@, path@),
{
    let b = match url::Url::parse(base) {
        Ok(b) => b,
        Err(_) => return None,
    };
    match b.join(path) {
        Ok(u) => Some(u.to_string()),
        Err(_) => None,
    }
}

/// The three query parameters attached to a search: the query text
/// under `q`, and the fixed pagination ceiling `start=0`, `rows=1000`.
/// The ceiling is a known limitation kept on purpose: result sets over
/// 1000 items are truncated with no follow-up page.
pub open spec fn search_query_views(query: Seq<char>) -> Seq<(Seq<char>, Seq<char>)> {
    seq![("q"@, query), ("start"@, "0"@), ("rows"@, "1000"@)]
}

/// Query-parameter gating: an empty query string yields no parameters
/// at all; any non-empty query yields exactly `q`, `start=0` and
/// `rows=1000`, regardless of expected result count.
pub fn query_params(query: &str) -> (r: Vec<(String, String)>)
    ensures
        query@.len() == 0 ==> r@.len() == 0,
        query@.len() > 0 ==> header_views(r@) == search_query_views(query@),
{
    let mut r: Vec<(String, String)> = Vec::new();
    if !query.is_empty() {
        r.push((String::from_str("q"), String::from_str(query)));
        r.push((String::from_str("start"), String::from_str("0")));
        r.push((String::from_str("rows"), String::from_str("1000")));
        proof {
            assert(header_views(r@) =~= search_query_views(query@));
        }
    }
    r
}

/// The fixed partial-search projection sent as the body of a search
/// POST: each field of interest mapped to the one-element array naming
/// that same field, except `node_name`, which draws from the server's
/// `name` attribute. The field list is fixed and not
/// caller-configurable.
pub open spec fn search_body_text() -> Seq<char> {
    "{\"chef_environment\":[\"chef_environment\"],\"fqdn\":[\"fqdn\"],\"hostname\":[\"hostname\"],\"ipaddress\":[\"ipaddress\"],\"macaddress\":[\"macaddress\"],\"node_name\":[\"name\"],\"os\":[\"os\"],\"os_version\":[\"os_version\"],\"platform\":[\"platform\"],\"platform_family\":[\"platform_family\"],\"platform_version\":[\"platform_version\"],\"recipes\":[\"recipes\"],\"roles\":[\"roles\"],\"run_list\":[\"run_list\"]}"@
}

/// Builds the fixed search body.
pub fn search_request_body() -> (r: String)
    ensures
        r@ == search_body_text(),
{
    String::from_str(
        "{\"chef_environment\":[\"chef_environment\"],\"fqdn\":[\"fqdn\"],\"hostname\":[\"hostname\"],\"ipaddress\":[\"ipaddress\"],\"macaddress\":[\"macaddress\"],\"node_name\":[\"name\"],\"os\":[\"os\"],\"os_version\":[\"os_version\"],\"platform\":[\"platform\"],\"platform_family\":[\"platform_family\"],\"platform_version\":[\"platform_version\"],\"recipes\":[\"recipes\"],\"roles\":[\"roles\"],\"run_list\":[\"run_list\"]}",
    )
}

/// What `prepare_get` and `prepare_post` promise of a prepared
/// envelope, given the method, the body it carries and the query text.
pub open spec fn envelope_wf(
    env: RequestEnvelope,
    config: KnifeConfig,
    key_pem: Seq<char>,
    request_path: Seq<char>,
    query: Seq<char>,
    method: Seq<char>,
    body: Option<String>,
) -> bool {
    &&& env.method@ == method
    &&& url_join_ok(config.chef_server_url@, request_path)
    &&& env.url@ == url_join_of(config.chef_server_url@, request_path)
    &&& is_rsa_private_pem(encode_utf8(key_pem))
    &&& (query.len() == 0 ==> env.query@.len() == 0)
    &&& (query.len() > 0 ==> header_views(env.query@) == search_query_views(query))
    &&& exists|ts: Seq<char>|
        is_utc_timestamp(ts) && canonical_fits(
            encode_utf8(key_pem),
            config.node_name@,
            method,
            request_path,
            opt_body_view(body),
            ts,
        ) && header_views(env.headers@) == headers_of(
            config.node_name@,
            ts,
            signature_of(
                encode_utf8(key_pem),
                config.node_name@,
                method,
                request_path,
                opt_body_view(body),
                ts,
            ),
            b64_sha1(encode_utf8(opt_body_view(body))),
        )
}

/// Prepares a GET: empty body, signed headers under a fresh timestamp,
/// query parameters gated on the query text.
pub fn prepare_get(config: &KnifeConfig, key_pem: &str, request_path: &str, query: &str) -> (r:
    Result<RequestEnvelope, KnifeError>)
    ensures
        r matches Ok(env) ==> envelope_wf(
            env,
            *config,
            key_pem@,
            request_path@,
            query@,
            "GET"@,
            None,
        ) && env.body is None,
        r matches Err(e) ==> (e matches KnifeError::Transport { .. } || e
            matches KnifeError::KeyParse || e matches KnifeError::Signing),
        r matches Err(KnifeError::Transport { .. }) <==> !url_join_ok(
            config.chef_server_url@,
            request_path@,
        ),
        r matches Err(KnifeError::KeyParse) <==> url_join_ok(config.chef_server_url@, request_path@)
            && !is_rsa_private_pem(encode_utf8(key_pem@)),
        r matches Err(KnifeError::Signing) ==> url_join_ok(config.chef_server_url@, request_path@)
            && is_rsa_private_pem(encode_utf8(key_pem@)),
{
    prepare_request(config, key_pem, request_path, query, false)
}

/// Prepares a search POST: the fixed projection body, signed headers
/// under a fresh timestamp, query parameters gated on the query text.
pub fn prepare_post(config: &KnifeConfig, key_pem: &str, request_path: &str, query: &str) -> (r:
    Result<RequestEnvelope, KnifeError>)
    ensures
        r matches Ok(env) ==> envelope_wf(
            env,
            *config,
            key_pem@,
            request_path@,
            query@,
            "POST"@,
            env.body,
        ) && (env.body matches Some(b) && b@ == search_body_text()),
        r matches Err(e) ==> (e matches KnifeError::Transport { .. } || e
            matches KnifeError::KeyParse || e matches KnifeError::Signing),
        r matches Err(KnifeError::Transport { .. }) <==> !url_join_ok(
            config.chef_server_url@,
            request_path@,
        ),
        r matches Err(KnifeError::KeyParse) <==> url_join_ok(config.chef_server_url@, request_path@)
            && !is_rsa_private_pem(encode_utf8(key_pem@)),
        r matches Err(KnifeError::Signing) ==> url_join_ok(config.chef_server_url@, request_path@)
            && is_rsa_private_pem(encode_utf8(key_pem@)),
{
    prepare_request(config, key_pem, request_path, query, true)
}

/// Shared preparation: resolves the URL, signs the headers and gates
/// the query parameters; POST carries the fixed search body.
fn prepare_request(
    config: &KnifeConfig,
    key_pem: &str,
    request_path: &str,
    query: &str,
    is_post: bool,
) -> (r: Result<RequestEnvelope, KnifeError>)
    ensures
        r matches Ok(env) ==> envelope_wf(
            env,
            *config,
            key_pem@,
            request_path@,
            query@,
            if is_post {
                "POST"@
            } else {
                "GET"@
            },
            env.body,
        ) && (if is_post {
            env.body matches Some(b) && b@ == search_body_text()
        } else {
            env.body is None
        }),
        r matches Err(e) ==> (e matches KnifeError::Transport { .. } || e
            matches KnifeError::KeyParse || e matches KnifeError::Signing),
        r matches Err(KnifeError::Transport { .. }) <==> !url_join_ok(
            config.chef_server_url@,
            request_path@,
        ),
        r matches Err(KnifeError::KeyParse) <==> url_join_ok(config.chef_server_url@, request_path@)
            && !is_rsa_private_pem(encode_utf8(key_pem@)),
        r matches Err(KnifeError::Signing) ==> url_join_ok(config.chef_server_url@, request_path@)
            && is_rsa_private_pem(encode_utf8(key_pem@)),
{
    let url = match resolve_url(config.chef_server_url.as_str(), request_path) {
        Some(u) => u,
        None => {
            return Err(
                KnifeError::Transport { detail: String::from_str("cannot resolve request URL") },
            );
        },
    };
    let method = if is_post {
        String::from_str("POST")
    } else {
        String::from_str("GET")
    };
    let body: Option<String> = if is_post {
        Some(search_request_body())
    } else {
        None
    };
    let body_for_headers: Option<String> = match &body {
        Some(b) => Some(b.clone()),
        None => None,
    };
    proof {
        assert(opt_body_view(body_for_headers) == opt_body_view(body));
    }
    let headers = match request_headers(
        key_pem,
        config.node_name.as_str(),
        request_path,
        method.as_str(),
        body_for_headers,
    ) {
        Ok(h) => h,
        Err(e) => {
            return Err(e);
        },
    };
    let query_pairs = query_params(query);
    Ok(RequestEnvelope { method, url, query: query_pairs, headers, body })
}

/// Normalizes what the transport returned: any status line and body,
/// 4xx and 5xx included, yield an envelope unchanged; only a
/// transport-level failure is an error, carrying its description.
pub fn dispatch_result(transport: Result<(u16, String), String>) -> (r: Result<
    ChefServerResponse,
    KnifeError,
>)
    ensures
        transport matches Ok((status, body)) ==> (r matches Ok(env) && env.status == status
            && env.body@ == body@),
        transport matches Err(d) ==> (r matches Err(e) && (e matches KnifeError::Transport {
            detail,
        } && detail@ == d@)),
{
    match transport {
        Ok((status, body)) => Ok(ChefServerResponse { status, body }),
        Err(d) => Err(KnifeError::Transport { detail: d }),
    }
}

} // verus!
