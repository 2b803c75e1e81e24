use edge_server::config::{EnvConfig, TrackingConfig};
use edge_server::http::{header_lookup, HeaderField, RequestData};
use edge_server::pipeline::{
    after_static, proxy_url, route_request, upstream_error_response, RoutePlan, StaticPlan,
};
use edge_server::redirect::redirect_decision;

fn header(name: &str, value: &str) -> HeaderField {
    HeaderField { name: name.to_owned(), value: value.to_owned() }
}

fn request(path: &str, query: Option<&str>, headers: Vec<HeaderField>) -> RequestData {
    RequestData {
        method: "GET".to_owned(),
        path: path.to_owned(),
        query: query.map(|q| q.to_owned()),
        uri_host: None,
        headers,
    }
}

fn env(production: bool) -> EnvConfig {
    EnvConfig {
        port: 8080,
        production,
        static_root: "./public".to_owned(),
        proxy_base: "http://upstream.example".to_owned(),
        tracking: None,
    }
}

#[test]
fn guard_silent_outside_production() {
    let req = request("/anything", None, vec![header("host", "example.com")]);
    assert!(redirect_decision(&req, &env(false)).is_none());
}

#[test]
fn guard_silent_when_already_https() {
    let req = request(
        "/anything",
        None,
        vec![header("host", "example.com"), header("x-forwarded-proto", "https")],
    );
    assert!(redirect_decision(&req, &env(true)).is_none());
}

#[test]
fn guard_fires_without_trust_header() {
    let req = request("/anything", None, vec![header("host", "example.com")]);
    let resp = redirect_decision(&req, &env(true)).expect("redirect owed");
    assert_eq!(resp.status, 301);
    assert_eq!(resp.headers.len(), 1);
    assert_eq!(resp.headers[0].name, "location");
    assert_eq!(resp.headers[0].value, "https://example.com/anything");
    assert!(resp.body.is_empty());
}

#[test]
fn guard_fires_on_other_scheme() {
    let req = request(
        "/x",
        None,
        vec![header("host", "example.com"), header("x-forwarded-proto", "http")],
    );
    let resp = redirect_decision(&req, &env(true)).expect("redirect owed");
    assert_eq!(resp.status, 301);
    assert_eq!(resp.headers[0].value, "https://example.com/x");
}

#[test]
fn guard_trust_header_name_is_case_insensitive() {
    let req = request(
        "/x",
        None,
        vec![header("X-Forwarded-Proto", "https"), header("host", "example.com")],
    );
    assert!(redirect_decision(&req, &env(true)).is_none());
}

#[test]
fn guard_host_falls_back_to_empty() {
    let req = request("/p", None, vec![]);
    let resp = redirect_decision(&req, &env(true)).expect("redirect owed");
    assert_eq!(resp.headers[0].value, "https:///p");
}

#[test]
fn guard_redirect_carries_path_only() {
    let req = request("/list", Some("page=2"), vec![header("host", "example.com")]);
    let resp = redirect_decision(&req, &env(true)).expect("redirect owed");
    assert_eq!(resp.headers[0].value, "https://example.com/list");
}

#[test]
fn guard_prefers_uri_host() {
    let mut req = request("/p", None, vec![header("host", "fallback.example")]);
    req.uri_host = Some("primary.example".to_owned());
    let resp = redirect_decision(&req, &env(true)).expect("redirect owed");
    assert_eq!(resp.headers[0].value, "https://primary.example/p");
}

#[test]
fn found_file_short_circuits() {
    let req = request("/", None, vec![]);
    let e = env(false);
    assert!(matches!(route_request(&req, &e), RoutePlan::TryStatic));
    assert!(matches!(after_static(&req, &e, true), StaticPlan::ServeStatic));
}

#[test]
fn missing_file_reaches_proxy() {
    let req = request("/missing.png", None, vec![]);
    let e = env(false);
    assert!(matches!(route_request(&req, &e), RoutePlan::TryStatic));
    match after_static(&req, &e, false) {
        StaticPlan::FetchProxy(url) => {
            assert_eq!(url, "http://upstream.example/missing.png");
        }
        StaticPlan::ServeStatic => panic!("must fall through to the proxy"),
    }
}

#[test]
fn proxy_url_keeps_query() {
    let req = request("/search", Some("q=verus&page=2"), vec![]);
    assert_eq!(proxy_url(&env(false), &req), "http://upstream.example/search?q=verus&page=2");
}

#[test]
fn redirect_outranks_static() {
    let req = request("/index.html", None, vec![header("host", "example.com")]);
    match route_request(&req, &env(true)) {
        RoutePlan::Respond(resp) => assert_eq!(resp.status, 301),
        RoutePlan::TryStatic => panic!("guard must answer first"),
    }
}

#[test]
fn identical_requests_fail_identically() {
    let e = env(false);
    let first = {
        let req = request("/gone", Some("k=v"), vec![]);
        match after_static(&req, &e, false) {
            StaticPlan::FetchProxy(url) => url,
            StaticPlan::ServeStatic => panic!("must fall through"),
        }
    };
    let second = {
        let req = request("/gone", Some("k=v"), vec![]);
        match after_static(&req, &e, false) {
            StaticPlan::FetchProxy(url) => url,
            StaticPlan::ServeStatic => panic!("must fall through"),
        }
    };
    assert_eq!(first, second);
    let e1 = upstream_error_response();
    let e2 = upstream_error_response();
    assert_eq!(e1.status, e2.status);
    assert_eq!(e1.body, e2.body);
}

#[test]
fn upstream_error_is_bad_gateway() {
    let r = upstream_error_response();
    assert_eq!(r.status, 502);
    assert_eq!(r.body, b"upstream unreachable".to_vec());
    assert!(r.headers.is_empty());
}

#[test]
fn route_ignores_tracking_config() {
    let req = request("/anything", None, vec![header("host", "example.com")]);
    let mut with_tracking = env(true);
    with_tracking.tracking = Some(TrackingConfig {
        endpoint: "https://stats.example/piwik.php".to_owned(),
        site_id: "3".to_owned(),
        auth_token: "token123".to_owned(),
    });
    let a = redirect_decision(&req, &env(true)).expect("redirect owed");
    let b = redirect_decision(&req, &with_tracking).expect("redirect owed");
    assert_eq!(a.status, b.status);
    assert_eq!(a.headers[0].value, b.headers[0].value);
}

#[test]
fn header_lookup_first_match_wins() {
    let hs = vec![header("Accept", "a"), header("accept", "b")];
    assert_eq!(header_lookup(&hs, "ACCEPT"), Some("a".to_owned()));
    assert_eq!(header_lookup(&hs, "range"), None);
}
