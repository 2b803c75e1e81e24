//! The redirect guard: in production mode, any request whose trust header
//! does not say the client already spoke HTTPS is answered with a permanent
//! redirect to the HTTPS equivalent URL before anything else runs.

use vstd::prelude::*;
use vstd::string::*;
use crate::config::EnvConfig;
use crate::http::{header_val, HeaderField, RequestData, ResponseData};
use crate::strutil::str_eq;

verus! {

/// The scheme-forwarding header set by a fronting load balancer.
pub open spec fn trust_header_name() -> Seq<char> {
    "x-forwarded-proto"@
}

/// The trust header is present and says exactly `https`.
pub open spec fn trusted_https(req: RequestData) -> bool {
    header_val(req.headers@, trust_header_name()) == Some("https"@)
}

/// The guard acts only in production mode, and only when the trust header is
/// absent or carries any value other than `https`.
pub open spec fn guard_active(req: RequestData, env: EnvConfig) -> bool {
    env.production && !trusted_https(req)
}

/// Host segment of the redirect target: the host of the request line when
/// present, else the `Host` header, else empty.
pub open spec fn effective_host(req: RequestData) -> Seq<char> {
    match req.uri_host {
        Some(h) => h@,
        None => match header_val(req.headers@, "host"@) {
            Some(v) => v,
            None => Seq::<char>::empty(),
        },
    }
}

/// Absolute URL the guard redirects to: the HTTPS scheme, the effective
/// host, and the original path (a redirect never carries the query).
pub open spec fn redirect_location(req: RequestData) -> Seq<char> {
    "https://"@ + effective_host(req) + req.path@
}

/// `r` is the redirect the guard owes for `req`: status 301, a single
/// `Location` header holding the computed URL, and an empty body.
pub open spec fn is_redirect_response(r: ResponseData, req: RequestData) -> bool {
    &&& r.status == 301
    &&& r.headers@.len() == 1
    &&& r.headers@[0].name@ == "location"@
    &&& r.headers@[0].value@ == redirect_location(req)
    &&& r.body@ == Seq::<u8>::empty()
}

/// Decides the redirect: `Some` with the full 301 response exactly when the
/// guard is active, `None` to let the request fall through to the next stage.
pub fn redirect_decision(req: &RequestData, env: &EnvConfig) -> (r: Option<ResponseData>)
    ensures
        r is Some <==> guard_active(*req, *env),
        r matches Some(resp) ==> is_redirect_response(resp, *req),
{
    if !env.production {
        return None;
    }
    let trusted: bool = match crate::http::header_lookup(&req.headers, "x-forwarded-proto") {
        Some(v) => str_eq(v.as_str(), "https"),
        None => false,
    };
    if trusted {
        return None;
    }
    let mut target: String = "https://".to_owned();
    match &req.uri_host {
        Some(h) => {
            target.append(h.as_str());
        },
        None => {
            match crate::http::header_lookup(&req.headers, "host") {
                Some(v) => {
                    target.append(v.as_str());
                },
                None => {},
            }
        },
    }
    target.append(req.path.as_str());
    proof {
        assert(target@ =~= redirect_location(*req));
    }
    let mut hs: Vec<HeaderField> = Vec::new();
    hs.push(HeaderField { name: "location".to_owned(), value: target });
    Some(ResponseData { status: 301, headers: hs, body: Vec::new() })
}

} // verus!
