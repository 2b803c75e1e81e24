//! The tracking beacon: after a response has been delivered and found
//! successful, one signed analytics GET is planned against the configured
//! endpoint. The plan is computed here in full — the caller only sends the
//! finished URL, detached from the request, and drops whatever comes back.
//! A missing `Referer`, `User-Agent` or `Accept-Language` header never stops
//! the beacon; its parameter is simply omitted.

use vstd::prelude::*;
use vstd::string::*;
use vstd::utf8::encode_utf8;
use crate::config::{EnvConfig, TrackingConfig};
use crate::encode::{
    append_decimal, append_encoded_str, append_hex, append_literal, dec_digits, hex_digits,
    percent_encoded_text,
};
use crate::http::{header_lookup, header_val, path_and_query, request_url, RequestData};

verus! {

/// Everything one beacon call reports, derived from a completed request.
pub struct TrackingEvent {
    /// The URL the client asked for: path and query.
    pub url: String,
    /// `Referer` header, when the request carried one.
    pub referrer: Option<String>,
    /// `User-Agent` header, when the request carried one.
    pub user_agent: Option<String>,
    /// `Accept-Language` header, when the request carried one.
    pub language: Option<String>,
    /// The client's IP address, captured when the connection was accepted.
    pub client_ip: String,
    /// Unix-epoch timestamp of the hit, in seconds.
    pub timestamp: u64,
    /// Freshly drawn 128-bit nonce, for cache busting.
    pub nonce: u128,
}

/// View of an optional string.
pub open spec fn opt_text(v: Option<String>) -> Option<Seq<char>> {
    match v {
        Some(s) => Some(s@),
        None => None,
    }
}

/// One optional query parameter: nothing when the value is absent, else the
/// parameter name (with its `&` and `=`) and the encoded value.
pub open spec fn opt_param(name: Seq<char>, v: Option<Seq<char>>) -> Seq<u8> {
    match v {
        Some(s) => encode_utf8(name) + percent_encoded_text(s),
        None => Seq::<u8>::empty(),
    }
}

/// The complete beacon URL for configuration `cfg` and the given facts of
/// the request: endpoint, site, a constant record flag, the request URL, the
/// optional enrichment headers, client IP, timestamp, auth token, nonce, and
/// the constant API version and image suppression flags.
pub open spec fn beacon_url_bytes(
    cfg: TrackingConfig,
    url: Seq<char>,
    referrer: Option<Seq<char>>,
    user_agent: Option<Seq<char>>,
    language: Option<Seq<char>>,
    client_ip: Seq<char>,
    timestamp: u64,
    nonce: u128,
) -> Seq<u8> {
    encode_utf8(cfg.endpoint@) + encode_utf8("?idsite="@) + percent_encoded_text(cfg.site_id@)
        + encode_utf8("&rec=1&url="@) + percent_encoded_text(url) + opt_param(
        "&urlref="@,
        referrer,
    ) + opt_param("&ua="@, user_agent) + opt_param("&lang="@, language) + encode_utf8("&cip="@)
        + percent_encoded_text(client_ip) + encode_utf8("&cdt="@) + dec_digits(timestamp as nat)
        + encode_utf8("&token_auth="@) + percent_encoded_text(cfg.auth_token@) + encode_utf8(
        "&rand="@,
    ) + hex_digits(nonce as nat, 32) + encode_utf8("&apiv=1&send_image=0"@)
}

/// The beacon URL owed for event `ev` under configuration `cfg`.
pub open spec fn beacon_url_for_event(cfg: TrackingConfig, ev: TrackingEvent) -> Seq<u8> {
    beacon_url_bytes(
        cfg,
        ev.url@,
        opt_text(ev.referrer),
        opt_text(ev.user_agent),
        opt_text(ev.language),
        ev.client_ip@,
        ev.timestamp,
        ev.nonce,
    )
}

/// Derives the tracking event from a completed request: the URL it asked
/// for, the three optional enrichment headers, and the per-hit facts the
/// caller supplies.
pub fn build_event(req: &RequestData, client_ip: &str, timestamp: u64, nonce: u128) -> (ev:
    TrackingEvent)
    ensures
        ev.url@ == path_and_query(*req),
        opt_text(ev.referrer) == header_val(req.headers@, "referer"@),
        opt_text(ev.user_agent) == header_val(req.headers@, "user-agent"@),
        opt_text(ev.language) == header_val(req.headers@, "accept-language"@),
        ev.client_ip@ == client_ip@,
        ev.timestamp == timestamp,
        ev.nonce == nonce,
{
    TrackingEvent {
        url: request_url(req),
        referrer: header_lookup(&req.headers, "referer"),
        user_agent: header_lookup(&req.headers, "user-agent"),
        language: header_lookup(&req.headers, "accept-language"),
        client_ip: client_ip.to_owned(),
        timestamp,
        nonce,
    }
}

/// Appends one optional parameter to the URL under construction.
fn append_opt_param(out: &mut Vec<u8>, name: &str, v: &Option<String>)
    ensures
        final(out)@ == old(out)@ + opt_param(name@, opt_text(*v)),
{
    match v {
        Some(s) => {
            append_literal(out, name);
            append_encoded_str(out, s.as_str());
        },
        None => {
            proof {
                assert(out@ =~= out@ + Seq::<u8>::empty());
            }
        },
    }
}

/// Builds the beacon URL for event `ev`: the UTF-8 octets of the finished
/// GET target, every variable value percent-encoded.
pub fn build_beacon_url(cfg: &TrackingConfig, ev: &TrackingEvent) -> (r: Vec<u8>)
    ensures
        r@ == beacon_url_for_event(*cfg, *ev),
{
    let mut out: Vec<u8> = Vec::new();
    append_literal(&mut out, cfg.endpoint.as_str());
    append_literal(&mut out, "?idsite=");
    append_encoded_str(&mut out, cfg.site_id.as_str());
    append_literal(&mut out, "&rec=1&url=");
    append_encoded_str(&mut out, ev.url.as_str());
    append_opt_param(&mut out, "&urlref=", &ev.referrer);
    append_opt_param(&mut out, "&ua=", &ev.user_agent);
    append_opt_param(&mut out, "&lang=", &ev.language);
    append_literal(&mut out, "&cip=");
    append_encoded_str(&mut out, ev.client_ip.as_str());
    append_literal(&mut out, "&cdt=");
    append_decimal(&mut out, ev.timestamp);
    append_literal(&mut out, "&token_auth=");
    append_encoded_str(&mut out, cfg.auth_token.as_str());
    append_literal(&mut out, "&rand=");
    append_hex(&mut out, ev.nonce, 32);
    append_literal(&mut out, "&apiv=1&send_image=0");
    proof {
        assert(out@ =~= beacon_url_for_event(*cfg, *ev));
    }
    out
}

/// A response qualifies for tracking exactly when its status is a success.
pub fn should_track(status: u16) -> (r: bool)
    ensures
        r == (200 <= status < 300),
{
    200 <= status && status < 300
}

/// Decides the beacon for a finished request: the one URL to fire exactly
/// when tracking is configured and the delivered status was a success, and
/// nothing otherwise.
pub fn plan_tracking(
    env: &EnvConfig,
    req: &RequestData,
    status: u16,
    client_ip: &str,
    timestamp: u64,
    nonce: u128,
) -> (r: Option<Vec<u8>>)
    ensures
        r is Some <==> (env.tracking is Some && 200 <= status < 300),
        r matches Some(q) ==> (env.tracking matches Some(cfg) && q@ == beacon_url_bytes(
            cfg,
            path_and_query(*req),
            header_val(req.headers@, "referer"@),
            header_val(req.headers@, "user-agent"@),
            header_val(req.headers@, "accept-language"@),
            client_ip@,
            timestamp,
            nonce,
        )),
{
    match &env.tracking {
        Some(cfg) => {
            if should_track(status) {
                let ev: TrackingEvent = build_event(req, client_ip, timestamp, nonce);
                let url: Vec<u8> = build_beacon_url(cfg, &ev);
                proof {
                    assert(url@ =~= beacon_url_bytes(
                        *cfg,
                        path_and_query(*req),
                        header_val(req.headers@, "referer"@),
                        header_val(req.headers@, "user-agent"@),
                        header_val(req.headers@, "accept-language"@),
                        client_ip@,
                        timestamp,
                        nonce,
                    ));
                }
                Some(url)
            } else {
                None
            }
        },
        None => None,
    }
}

/// Beacon isolation: nothing the response path computes reads the tracking
/// side of the configuration. Two configurations that agree on mode and
/// upstream but differ arbitrarily in tracking settings give every request
/// the same route, the same redirect target and the same upstream URL.
pub proof fn lemma_beacon_isolation(req: RequestData, env1: EnvConfig, env2: EnvConfig)
    requires
        env1.production == env2.production,
        env1.proxy_base == env2.proxy_base,
    ensures
        crate::redirect::guard_active(req, env1) == crate::redirect::guard_active(req, env2),
        crate::redirect::redirect_location(req) == crate::redirect::redirect_location(req),
        crate::pipeline::proxy_target(env1, req) == crate::pipeline::proxy_target(env2, req),
{
}

} // verus!
