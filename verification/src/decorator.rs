//! Request decoration.
//!
//! Before the initial upgrade request is sent over a freshly opened stream,
//! the ordered decorator sequence of the route descriptor is applied to that
//! single request: append one header, merge a list of headers, or prefix the
//! request path. Decorators are pure: the result depends only on the
//! decorator and the request it is applied to.
//!
//! Requests are modelled by [`HttpRequestParts`]: the path-and-query portion
//! of the request target and the ordered header list, both as plain bytes.
//! Whether a byte string is a valid path-and-query, header name or header
//! value is decided by the `http` crate, behind trusted wrappers.

use vstd::prelude::*;

use crate::errors::TransportConnectError;

verus! {

/// Whether `http::uri::PathAndQuery` accepts `b`.
pub uninterp spec fn pq_valid(b: Seq<u8>) -> bool;

/// Whether `http::header::HeaderName` accepts `b`.
pub uninterp spec fn header_name_valid(b: Seq<u8>) -> bool;

/// Whether `http::header::HeaderValue` accepts `b`.
pub uninterp spec fn header_value_valid(b: Seq<u8>) -> bool;

/// The path-and-query bytes of `s` when `http::Uri` parses `s` and gives it
/// a path-and-query portion.
pub uninterp spec fn uri_pq_of(s: Seq<char>) -> Option<Seq<u8>>;

/// Relies on `http::uri::PathAndQuery::try_from(&[u8])`: whether `b` parses
/// as the path-and-query portion of a request target.
#[verifier::external_body]
fn check_path_and_query(b: &Vec<u8>) -> (r: bool)
    ensures
        r == pq_valid(b@),
{
    http::uri::PathAndQuery::try_from(b.as_slice()).is_ok()
}

/// Relies on `http::header::HeaderName::from_bytes`: whether `b` is a valid
/// header name.
#[verifier::external_body]
fn check_header_name(b: &Vec<u8>) -> (r: bool)
    ensures
        r == header_name_valid(b@),
{
    http::header::HeaderName::from_bytes(b.as_slice()).is_ok()
}

/// Relies on `http::header::HeaderValue::from_bytes`: whether `b` is a valid
/// header value.
#[verifier::external_body]
fn check_header_value(b: &Vec<u8>) -> (r: bool)
    ensures
        r == header_value_valid(b@),
{
    http::header::HeaderValue::from_bytes(b.as_slice()).is_ok()
}

/// Relies on `http::Uri::try_from(&str)` and `http::Uri::path_and_query`:
/// the path-and-query portion of `uri`, or `None` when `uri` does not parse
/// or has no such portion.
#[verifier::external_body]
fn parse_uri_path_and_query(uri: &str) -> (r: Option<Vec<u8>>)
    ensures
        match r {
            Some(b) => uri_pq_of(uri@) == Some(b@),
            None => uri_pq_of(uri@) is None,
        },
{
    match http::Uri::try_from(uri) {
        Ok(u) => u.path_and_query().map(|pq| pq.as_str().as_bytes().to_vec()),
        Err(_) => None,
    }
}

/// A fresh copy of a byte string.
fn copy_bytes(src: &Vec<u8>) -> (r: Vec<u8>)
    ensures
        r@ == src@,
{
    let mut r: Vec<u8> = Vec::new();
    let mut i: usize = 0;
    while i < src.len()
        invariant
            i <= src@.len(),
            r@ == src@.subrange(0, i as int),
        decreases src@.len() - i,
    {
        r.push(src[i]);
        i = i + 1;
        proof {
            assert(r@ =~= src@.subrange(0, i as int));
        }
    }
    proof {
        assert(r@ =~= src@);
    }
    r
}

/// Whether two byte strings hold the same bytes.
fn bytes_eq(a: &Vec<u8>, b: &Vec<u8>) -> (r: bool)
    ensures
        r == (a@ == b@),
{
    if a.len() != b.len() {
        return false;
    }
    let mut i: usize = 0;
    while i < a.len()
        invariant
            a@.len() == b@.len(),
            i <= a@.len(),
            forall|j: int| 0 <= j < i ==> a@[j] == b@[j],
        decreases a@.len() - i,
    {
        if a[i] != b[i] {
            return false;
        }
        i = i + 1;
    }
    proof {
        assert(a@ =~= b@);
    }
    true
}

/// One operation applied to an outgoing request before it is sent.
///
/// The set is closed: every decorator is one of these shapes, applied
/// left-to-right over the request.
#[derive(Clone, Debug)]
pub enum HttpRequestDecorator {
    /// Adds a specific header to the request.
    Header(Vec<u8>, Vec<u8>),
    /// Adds a collection of headers to the request, in order.
    HeaderMap(Vec<(Vec<u8>, Vec<u8>)>),
    /// Prefixes the path portion of the request with the given bytes.
    PathPrefix(Vec<u8>),
}

/// An ordered sequence of request decorators.
#[derive(Clone, Debug)]
pub struct HttpRequestDecoratorSeq(pub Vec<HttpRequestDecorator>);

impl Default for HttpRequestDecoratorSeq {
    /// An empty decorator sequence.
    fn default() -> (r: HttpRequestDecoratorSeq)
        ensures
            r.0@.len() == 0,
    {
        HttpRequestDecoratorSeq(Vec::new())
    }
}

impl HttpRequestDecoratorSeq {
    /// Append one decorator at the end of the sequence.
    pub fn add(&mut self, decorator: HttpRequestDecorator)
        ensures
            final(self).0@ == old(self).0@.push(decorator),
    {
        self.0.push(decorator)
    }
}

/// An outgoing HTTP-shaped request, reduced to what decoration reads and
/// writes: the path-and-query portion of the request target (absent for
/// requests without one) and the ordered header list.
#[derive(Clone, Debug)]
pub struct HttpRequestParts {
    /// The path-and-query portion of the request target, as bytes.
    pub path_and_query: Option<Vec<u8>>,
    /// The request headers, in order, as (name, value) byte pairs.
    pub headers: Vec<(Vec<u8>, Vec<u8>)>,
}

/// Whether `p` is the path portion of the path-and-query `pq`: the longest
/// prefix holding no `?`.
pub open spec fn is_path_of(pq: Seq<u8>, p: Seq<u8>) -> bool {
    &&& p.len() <= pq.len()
    &&& p == pq.subrange(0, p.len() as int)
    &&& forall|j: int| 0 <= j < p.len() ==> pq[j] != 63u8
    &&& p.len() < pq.len() ==> pq[p.len() as int] == 63u8
}

/// The value of the first header named `name`, if any.
pub open spec fn spec_first_header(hs: Seq<(Vec<u8>, Vec<u8>)>, name: Seq<u8>) -> Option<Seq<u8>>
    decreases hs.len(),
{
    if hs.len() == 0 {
        None
    } else if hs[0].0@ == name {
        Some(hs[0].1@)
    } else {
        spec_first_header(hs.drop_first(), name)
    }
}

/// When none of the first `i` headers matches, the search is decided by the
/// rest of the list.
proof fn lemma_first_header_skip(hs: Seq<(Vec<u8>, Vec<u8>)>, name: Seq<u8>, i: int)
    requires
        0 <= i <= hs.len(),
        forall|j: int| 0 <= j < i ==> (#[trigger] hs[j].0@) != name,
    ensures
        spec_first_header(hs, name) == spec_first_header(hs.skip(i), name),
    decreases i,
{
    if i == 0 {
        assert(hs.skip(0) =~= hs);
    } else {
        lemma_first_header_skip(hs, name, i - 1);
        assert(hs.skip(i - 1)[0] == hs[i - 1]);
        assert(hs.skip(i - 1).drop_first() =~= hs.skip(i));
    }
}

/// The bytes of one header pair.
pub open spec fn header_view(h: (Vec<u8>, Vec<u8>)) -> (Seq<u8>, Seq<u8>) {
    (h.0@, h.1@)
}

/// The bytes of an ordered header list.
pub open spec fn headers_view(hs: Seq<(Vec<u8>, Vec<u8>)>) -> Seq<(Seq<u8>, Seq<u8>)> {
    hs.map_values(|h: (Vec<u8>, Vec<u8>)| header_view(h))
}

/// Appending one pair to a header list appends its bytes to the list's view.
proof fn lemma_headers_view_push(hs: Seq<(Vec<u8>, Vec<u8>)>, h: (Vec<u8>, Vec<u8>))
    ensures
        headers_view(hs.push(h)) == headers_view(hs).push(header_view(h)),
{
    assert(headers_view(hs.push(h)) =~= headers_view(hs).push(header_view(h)));
}

/// The mathematical shape of a request: its path-and-query bytes and its
/// header pairs.
pub open spec fn req_view(p: HttpRequestParts) -> (Option<Seq<u8>>, Seq<(Seq<u8>, Seq<u8>)>) {
    (
        match p.path_and_query {
            Some(pq) => Some(pq@),
            None => None,
        },
        headers_view(p.headers@),
    )
}

/// Whether a (name, value) pair is accepted as a header.
pub open spec fn header_pair_valid(n: Seq<u8>, v: Seq<u8>) -> bool {
    header_name_valid(n) && header_value_valid(v)
}

/// What one decorator does to a request, or `None` when the decorated
/// request would be malformed.
pub open spec fn spec_decorate_one(
    d: HttpRequestDecorator,
    r: (Option<Seq<u8>>, Seq<(Seq<u8>, Seq<u8>)>),
) -> Option<(Option<Seq<u8>>, Seq<(Seq<u8>, Seq<u8>)>)> {
    match d {
        HttpRequestDecorator::Header(n, v) => if header_pair_valid(n@, v@) {
            Some((r.0, r.1.push((n@, v@))))
        } else {
            None
        },
        HttpRequestDecorator::HeaderMap(m) => if forall|i: int|
            0 <= i < m@.len() ==> header_pair_valid(m@[i].0@, m@[i].1@) {
            Some((r.0, r.1 + headers_view(m@)))
        } else {
            None
        },
        HttpRequestDecorator::PathPrefix(p) => {
            let new_pq = p@ + (match r.0 {
                Some(q) => q,
                None => Seq::<u8>::empty(),
            });
            if pq_valid(new_pq) {
                Some((Some(new_pq), r.1))
            } else {
                None
            }
        },
    }
}

/// What a decorator sequence does to a request, applied left-to-right, or
/// `None` when any step would produce a malformed request.
pub open spec fn spec_decorate_seq(
    ds: Seq<HttpRequestDecorator>,
    r: (Option<Seq<u8>>, Seq<(Seq<u8>, Seq<u8>)>),
) -> Option<(Option<Seq<u8>>, Seq<(Seq<u8>, Seq<u8>)>)>
    decreases ds.len(),
{
    if ds.len() == 0 {
        Some(r)
    } else {
        match spec_decorate_one(ds[0], r) {
            Some(r2) => spec_decorate_seq(ds.drop_first(), r2),
            None => None,
        }
    }
}

impl HttpRequestDecoratorSeq {
    /// Apply the whole decorator sequence to `request`, left-to-right, each
    /// decorator folding the previous result. Returns the decorated request,
    /// or an `InvalidConfiguration` error exactly when some step would
    /// produce a malformed request.
    #[verifier::loop_isolation(false)]
    pub fn decorate_request(&self, request: HttpRequestParts) -> (r: Result<
        HttpRequestParts,
        TransportConnectError,
    >)
        ensures
            match r {
                Ok(p) => spec_decorate_seq(self.0@, req_view(request)) == Some(req_view(p)),
                Err(e) => spec_decorate_seq(self.0@, req_view(request)) is None && e
                    == TransportConnectError::InvalidConfiguration,
            },
    {
        let n = self.0.len();
        let mut cur = request;
        let mut i: usize = 0;
        proof {
            assert(self.0@.skip(0) =~= self.0@);
        }
        while i < n
            invariant
                i <= n,
                n == self.0@.len(),
                spec_decorate_seq(self.0@, req_view(request)) == spec_decorate_seq(
                    self.0@.skip(i as int),
                    req_view(cur),
                ),
            decreases n - i,
        {
            proof {
                assert(self.0@.skip(i as int)[0] == self.0@[i as int]);
                assert(self.0@.skip(i as int).drop_first() =~= self.0@.skip(i as int + 1));
            }
            match self.0[i].decorate_request(cur) {
                Ok(next) => {
                    cur = next;
                },
                Err(e) => {
                    return Err(e);
                },
            }
            i = i + 1;
        }
        proof {
            assert(self.0@.skip(n as int) =~= Seq::<HttpRequestDecorator>::empty());
        }
        Ok(cur)
    }
}

impl HttpRequestParts {
    /// Begin a request against the given request target, as a GET builder
    /// would: the target's path-and-query is kept and the header list starts
    /// empty. `None` when `uri` does not parse.
    pub fn get(uri: &str) -> (r: Option<HttpRequestParts>)
        ensures
            match r {
                Some(p) => uri_pq_of(uri@) == Some(p.path_and_query.unwrap()@)
                    && p.path_and_query is Some && p.headers@.len() == 0,
                None => uri_pq_of(uri@) is None,
            },
    {
        match parse_uri_path_and_query(uri) {
            Some(b) => Some(HttpRequestParts { path_and_query: Some(b), headers: Vec::new() }),
            None => None,
        }
    }

    /// The path portion of the request target: the bytes of the
    /// path-and-query before its first `?`; empty when the request has no
    /// path-and-query.
    #[verifier::loop_isolation(false)]
    pub fn path(&self) -> (r: Vec<u8>)
        ensures
            match self.path_and_query {
                Some(pq) => is_path_of(pq@, r@),
                None => r@.len() == 0,
            },
    {
        let mut out: Vec<u8> = Vec::new();
        match &self.path_and_query {
            None => {},
            Some(pq) => {
                let len = pq.len();
                let mut qpos: usize = len;
                let mut i: usize = 0;
                while i < len && qpos == len
                    invariant
                        i <= len,
                        qpos == len || qpos < i,
                        qpos == len ==> forall|j: int| 0 <= j < i ==> pq@[j] != 63u8,
                        qpos < len ==> pq@[qpos as int] == 63u8 && (forall|j: int|
                            0 <= j < qpos ==> pq@[j] != 63u8),
                    decreases len - i,
                {
                    if pq[i] == 63u8 {
                        qpos = i;
                    }
                    i = i + 1;
                }
                let mut k: usize = 0;
                while k < qpos
                    invariant
                        k <= qpos,
                        out@ == pq@.subrange(0, k as int),
                    decreases qpos - k,
                {
                    out.push(pq[k]);
                    k = k + 1;
                    proof {
                        assert(out@ =~= pq@.subrange(0, k as int));
                    }
                }
                proof {
                    assert(out@ == pq@.subrange(0, qpos as int));
                }
            },
        }
        out
    }

    /// The value of the first header with the given name, if any.
    #[verifier::loop_isolation(false)]
    pub fn header_value(&self, name: &Vec<u8>) -> (r: Option<Vec<u8>>)
        ensures
            match r {
                Some(v) => spec_first_header(self.headers@, name@) == Some(v@),
                None => spec_first_header(self.headers@, name@) is None,
            },
    {
        let n = self.headers.len();
        let mut i: usize = 0;
        while i < n
            invariant
                i <= n,
                n == self.headers@.len(),
                forall|j: int| 0 <= j < i ==> (#[trigger] self.headers@[j].0@) != name@,
            decreases n - i,
        {
            if bytes_eq(&self.headers[i].0, name) {
                proof {
                    lemma_first_header_skip(self.headers@, name@, i as int);
                    assert(self.headers@.skip(i as int)[0] == self.headers@[i as int]);
                }
                return Some(copy_bytes(&self.headers[i].1));
            }
            i = i + 1;
        }
        proof {
            lemma_first_header_skip(self.headers@, name@, n as int);
            assert(self.headers@.skip(n as int) =~= Seq::<(Vec<u8>, Vec<u8>)>::empty());
        }
        None
    }
}

impl HttpRequestDecorator {
    /// Apply this decorator to `request`. Returns the decorated request, or
    /// an `InvalidConfiguration` error exactly when the decorated request
    /// would be malformed (a header name or value the `http` crate refuses,
    /// or a prefixed path that is no longer a valid path-and-query).
    #[verifier::loop_isolation(false)]
    pub fn decorate_request(&self, request: HttpRequestParts) -> (r: Result<
        HttpRequestParts,
        TransportConnectError,
    >)
        ensures
            match r {
                Ok(p) => spec_decorate_one(*self, req_view(request)) == Some(req_view(p)),
                Err(e) => spec_decorate_one(*self, req_view(request)) is None && e
                    == TransportConnectError::InvalidConfiguration,
            },
    {
        let path_and_query = request.path_and_query;
        let mut headers = request.headers;
        let ghost base = headers_view(headers@);
        match self {
            HttpRequestDecorator::Header(n, v) => {
                if check_header_name(n) && check_header_value(v) {
                    let ghost before = headers@;
                    headers.push((copy_bytes(n), copy_bytes(v)));
                    let p = HttpRequestParts { path_and_query, headers };
                    proof {
                        lemma_headers_view_push(before, p.headers@.last());
                        assert(req_view(p).1 =~= base.push((n@, v@)));
                    }
                    Ok(p)
                } else {
                    Err(TransportConnectError::InvalidConfiguration)
                }
            },
            HttpRequestDecorator::HeaderMap(m) => {
                let mut i: usize = 0;
                while i < m.len()
                    invariant
                        i <= m@.len(),
                        forall|j: int| 0 <= j < i ==> header_pair_valid(m@[j].0@, m@[j].1@),
                    decreases m@.len() - i,
                {
                    if !(check_header_name(&m[i].0) && check_header_value(&m[i].1)) {
                        proof {
                            let j = i as int;
                            assert(0 <= j < m@.len() && !header_pair_valid(m@[j].0@, m@[j].1@));
                            assert(!(forall|x: int|
                                0 <= x < m@.len() ==> header_pair_valid(m@[x].0@, m@[x].1@)));
                        }
                        return Err(TransportConnectError::InvalidConfiguration);
                    }
                    i = i + 1;
                }
                let ghost mview = headers_view(m@);
                proof {
                    assert(headers_view(headers@) =~= base + mview.subrange(0, 0));
                }
                let mut k: usize = 0;
                while k < m.len()
                    invariant
                        k <= m@.len(),
                        mview == headers_view(m@),
                        headers_view(headers@) == base + mview.subrange(0, k as int),
                    decreases m@.len() - k,
                {
                    let ghost before = headers@;
                    headers.push((copy_bytes(&m[k].0), copy_bytes(&m[k].1)));
                    k = k + 1;
                    proof {
                        lemma_headers_view_push(before, headers@.last());
                        assert(headers@.last().0@ == m@[k - 1].0@);
                        assert(headers_view(headers@) =~= base + mview.subrange(0, k as int));
                    }
                }
                let p = HttpRequestParts { path_and_query, headers };
                proof {
                    assert(mview.subrange(0, mview.len() as int) =~= mview);
                    assert(req_view(p).1 =~= base + mview);
                }
                Ok(p)
            },
            HttpRequestDecorator::PathPrefix(prefix) => {
                let mut new_pq = copy_bytes(prefix);
                match &path_and_query {
                    Some(q) => {
                        proof {
                            assert(new_pq@ =~= prefix@ + q@.subrange(0, 0));
                        }
                        let mut t: usize = 0;
                        while t < q.len()
                            invariant
                                t <= q@.len(),
                                new_pq@ == prefix@ + q@.subrange(0, t as int),
                            decreases q@.len() - t,
                        {
                            new_pq.push(q[t]);
                            t = t + 1;
                            proof {
                                assert(new_pq@ =~= prefix@ + q@.subrange(0, t as int));
                            }
                        }
                        proof {
                            assert(new_pq@ =~= prefix@ + q@);
                        }
                    },
                    None => {
                        proof {
                            assert(new_pq@ =~= prefix@ + Seq::<u8>::empty());
                        }
                    },
                }
                if check_path_and_query(&new_pq) {
                    Ok(HttpRequestParts { path_and_query: Some(new_pq), headers })
                } else {
                    Err(TransportConnectError::InvalidConfiguration)
                }
            },
        }
    }
}

} // verus!
