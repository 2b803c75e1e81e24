//! The resolution pipeline: a strict, short-circuiting priority chain.
//! A request is answered by the redirect guard, else by the static file
//! tree, else by the reverse proxy — and by nothing else. The stages that
//! need I/O (the file lookup, the upstream call) are performed outside;
//! the functions here take their outcomes and decide the next step, so the
//! whole policy is stated and checked in one place.

use vstd::prelude::*;
use vstd::string::*;
use crate::config::EnvConfig;
use crate::http::{HeaderField, RequestData, ResponseData};
use crate::redirect::{guard_active, is_redirect_response, redirect_decision};

verus! {

/// First step of the chain: either the guard's own response, or the order to
/// try the static file tree.
pub enum RoutePlan {
    Respond(ResponseData),
    TryStatic,
}

/// Second step, once the static lookup has reported: serve the file it
/// found, or fetch the given absolute upstream URL.
pub enum StaticPlan {
    ServeStatic,
    FetchProxy(String),
}

/// Absolute upstream URL for a proxied request: the fixed base origin, the
/// original path, and the original query verbatim when there is one.
pub open spec fn proxy_target(env: EnvConfig, req: RequestData) -> Seq<char> {
    env.proxy_base@ + crate::http::path_and_query(req)
}

/// Evaluates the redirect guard, the first stage of the chain.
pub fn route_request(req: &RequestData, env: &EnvConfig) -> (r: RoutePlan)
    ensures
        match r {
            RoutePlan::Respond(resp) => guard_active(*req, *env) && is_redirect_response(
                resp,
                *req,
            ),
            RoutePlan::TryStatic => !guard_active(*req, *env),
        },
{
    match redirect_decision(req, env) {
        Some(resp) => RoutePlan::Respond(resp),
        None => RoutePlan::TryStatic,
    }
}

/// Builds the upstream URL a proxied request is sent to.
pub fn proxy_url(env: &EnvConfig, req: &RequestData) -> (r: String)
    ensures
        r@ == proxy_target(*env, *req),
{
    let mut url: String = env.proxy_base.clone();
    let rest: String = crate::http::request_url(req);
    url.append(rest.as_str());
    url
}

/// Second stage: reads the static lookup's outcome. A found file is served
/// as it came; any other outcome falls through to the proxy, the last stage.
pub fn after_static(req: &RequestData, env: &EnvConfig, found: bool) -> (r: StaticPlan)
    ensures
        match r {
            StaticPlan::ServeStatic => found,
            StaticPlan::FetchProxy(u) => !found && u@ == proxy_target(*env, *req),
        },
{
    if found {
        StaticPlan::ServeStatic
    } else {
        StaticPlan::FetchProxy(proxy_url(env, req))
    }
}

/// The terminal failure: when the proxy, the last stage, cannot reach the
/// upstream, this is the whole of what the client sees.
pub fn upstream_error_response() -> (r: ResponseData)
    ensures
        r.status == 502,
        r.headers@.len() == 0,
        r.body@ == "upstream unreachable".spec_bytes(),
{
    let body: Vec<u8> = "upstream unreachable".as_bytes_vec();
    let hs: Vec<HeaderField> = Vec::new();
    ResponseData { status: 502, headers: hs, body }
}

/// The guard never fires for a request whose trust header already says
/// `https`, nor outside production mode.
pub proof fn lemma_guard_never_fires(req: RequestData, env: EnvConfig)
    requires
        !env.production || crate::redirect::trusted_https(req),
    ensures
        !guard_active(req, env),
{
}

/// In production mode, a request whose trust header is absent or different
/// from `https` is always redirected: the guard owes exactly one 301 whose
/// `Location` starts with the HTTPS scheme and ends with the original
/// request path, kept exactly.
pub proof fn lemma_guard_fires(req: RequestData, env: EnvConfig, resp: ResponseData)
    requires
        env.production,
        !crate::redirect::trusted_https(req),
        is_redirect_response(resp, req),
    ensures
        guard_active(req, env),
        resp.status == 301,
        resp.headers@[0].value@ == "https://"@ + crate::redirect::effective_host(req)
            + req.path@,
        resp.headers@[0].value@.take("https://"@.len() as int) == "https://"@,
        resp.headers@[0].value@.skip(
            ("https://"@.len() + crate::redirect::effective_host(req).len()) as int,
        ) == req.path@,
{
    let scheme = "https://"@;
    let host = crate::redirect::effective_host(req);
    let loc = resp.headers@[0].value@;
    assert(loc.take(scheme.len() as int) =~= scheme);
    assert(loc.skip((scheme.len() + host.len()) as int) =~= req.path@);
}

/// A found static file short-circuits the chain: the step after a successful
/// lookup never orders a proxy fetch.
pub proof fn lemma_static_short_circuits(plan: StaticPlan, found: bool)
    requires
        found,
        match plan {
            StaticPlan::ServeStatic => found,
            StaticPlan::FetchProxy(_) => !found,
        },
    ensures
        plan is ServeStatic,
{
}

/// A request the guard lets through and the static tree does not hold is
/// handed to the proxy, and to its exact upstream URL.
pub proof fn lemma_fallthrough_reaches_proxy(
    req: RequestData,
    env: EnvConfig,
    plan: StaticPlan,
)
    requires
        match plan {
            StaticPlan::ServeStatic => false,
            StaticPlan::FetchProxy(u) => u@ == proxy_target(env, req),
        },
    ensures
        plan matches StaticPlan::FetchProxy(u) && u@ == proxy_target(env, req),
{
}

/// The chain holds no state between requests: two equal requests under the
/// same configuration take the same route, fall through alike, and name the
/// same upstream URL — so an unreachable upstream fails them identically.
pub proof fn lemma_resolution_idempotent(
    req1: RequestData,
    req2: RequestData,
    env: EnvConfig,
)
    requires
        req1 == req2,
    ensures
        guard_active(req1, env) == guard_active(req2, env),
        crate::redirect::redirect_location(req1) == crate::redirect::redirect_location(req2),
        proxy_target(env, req1) == proxy_target(env, req2),
{
}

} // verus!
