//! Plain data model of requests and responses. The surrounding process
//! converts its transport types into these values at the edge; everything the
//! decision logic reads is held here as ordinary strings and bytes.

use vstd::prelude::*;
use vstd::string::*;
use crate::strutil::{eq_ignore_ascii_case, str_eq_ignore_case};

verus! {

/// One header line: a name (compared case-insensitively) and its value.
pub struct HeaderField {
    pub name: String,
    pub value: String,
}

/// An incoming request, immutable once constructed. The path and the query
/// are kept apart; `uri_host` is the host named in the request line itself,
/// which is usually absent.
pub struct RequestData {
    pub method: String,
    pub path: String,
    pub query: Option<String>,
    pub uri_host: Option<String>,
    pub headers: Vec<HeaderField>,
}

/// A response as the decision logic constructs it: status, headers and a
/// complete body.
pub struct ResponseData {
    pub status: u16,
    pub headers: Vec<HeaderField>,
    pub body: Vec<u8>,
}

/// The request's path together with its query, exactly as the request line
/// carried them: the query, when present, follows a `?`.
pub open spec fn path_and_query(req: RequestData) -> Seq<char> {
    req.path@ + (match req.query {
        Some(q) => "?"@ + q@,
        None => Seq::<char>::empty(),
    })
}

/// Builds the path-and-query string of `req`.
pub fn request_url(req: &RequestData) -> (r: String)
    ensures
        r@ == path_and_query(*req),
{
    let mut url: String = req.path.clone();
    match &req.query {
        Some(q) => {
            url.append("?");
            url.append(q.as_str());
        },
        None => {},
    }
    proof {
        assert(url@ =~= path_and_query(*req));
    }
    url
}

/// Value of the first header whose name matches `name` up to ASCII case, or
/// `None` when no header does.
pub open spec fn header_val(hs: Seq<HeaderField>, name: Seq<char>) -> Option<Seq<char>>
    decreases hs.len(),
{
    if hs.len() == 0 {
        None
    } else if eq_ignore_ascii_case(hs[0].name@, name) {
        Some(hs[0].value@)
    } else {
        header_val(hs.drop_first(), name)
    }
}

/// Skipping a prefix without a matching name leaves the lookup unchanged.
proof fn lemma_header_val_skip(hs: Seq<HeaderField>, name: Seq<char>, i: int)
    requires
        0 <= i <= hs.len(),
        forall|j: int| 0 <= j < i ==> !eq_ignore_ascii_case(#[trigger] hs[j].name@, name),
    ensures
        header_val(hs, name) == header_val(hs.skip(i), name),
    decreases i,
{
    if i > 0 {
        lemma_header_val_skip(hs, name, i - 1);
        let t = hs.skip(i - 1);
        assert(t[0] == hs[i - 1]);
        assert(!eq_ignore_ascii_case(hs[i - 1].name@, name));
        assert(t.len() > 0);
        assert(t.drop_first() =~= hs.skip(i));
        assert(header_val(t, name) == header_val(t.drop_first(), name));
    } else {
        assert(hs.skip(0) =~= hs);
    }
}

/// Looks `name` up among `hs`, first match wins, names compared up to ASCII
/// case; returns a copy of the value.
pub fn header_lookup(hs: &Vec<HeaderField>, name: &str) -> (r: Option<String>)
    ensures
        match r {
            Some(v) => header_val(hs@, name@) == Some(v@),
            None => header_val(hs@, name@) is None,
        },
{
    let n: usize = hs.len();
    let mut i: usize = 0;
    while i < n
        invariant
            0 <= i <= n,
            n == hs@.len(),
            forall|j: int| 0 <= j < i ==> !eq_ignore_ascii_case(#[trigger] hs@[j].name@, name@),
        decreases n - i,
    {
        if str_eq_ignore_case(hs[i].name.as_str(), name) {
            proof {
                lemma_header_val_skip(hs@, name@, i as int);
                assert(hs@.skip(i as int)[0] == hs@[i as int]);
            }
            return Some(hs[i].value.clone());
        }
        i = i + 1;
    }
    proof {
        lemma_header_val_skip(hs@, name@, n as int);
        assert(hs@.skip(n as int) =~= Seq::<HeaderField>::empty());
    }
    None
}

} // verus!
