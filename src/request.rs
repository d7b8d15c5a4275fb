use vstd::prelude::*;

use crate::header::{
    Header, HeaderView, copy_bytes, first_value, name_eq, headers_view, is_token, is_valid_header,
    remove_named, valid_header_value, valid_token, without_name,
};
use crate::url::{Url, is_host, is_scheme, valid_host, valid_scheme};

verus! {

/// A request as the server side received it, before its body.
#[derive(Debug)]
pub struct InboundRequest {
    pub method: Vec<u8>,
    pub url: Url,
    pub headers: Vec<Header>,
}

/// A received request together with its buffered body.
#[derive(Debug)]
pub struct ActixWebRequestWrapper {
    pub req: InboundRequest,
    pub body: Vec<u8>,
}

impl ActixWebRequestWrapper {
    pub fn new(req: InboundRequest, body: Vec<u8>) -> (r: Self)
        ensures
            r.req == req,
            r.body@ == body@,
    {
        Self { req, body }
    }
}

/// A request ready for the client transport.
#[derive(Debug)]
pub struct OutboundRequest {
    pub method: Vec<u8>,
    pub url: Url,
    pub headers: Vec<Header>,
    pub body: Option<Vec<u8>>,
}

/// An outbound request under translation.
#[derive(Debug)]
pub struct RequestWrapper {
    pub request: OutboundRequest,
}

/// Why a received request could not be turned into an outbound one.
#[derive(Debug, Clone, Copy, PartialEq, Eq, Structural)]
pub enum ConversionError {
    /// The method is not a token.
    InvalidMethod,
    /// The header at this position has a name that is not a token, or a value
    /// with a control byte.
    InvalidHeader { index: usize },
}

/// Why a destination could not be applied.
#[derive(Debug, Clone, Copy, PartialEq, Eq, Structural)]
pub enum DestinationError {
    InvalidScheme,
    InvalidHost,
}

/// The name of the header that carries the destination host.
pub open spec fn host_header_name() -> Seq<u8> {
    seq![104u8, 111u8, 115u8, 116u8]
}

/// Every header is valid.
pub open spec fn all_valid(s: Seq<HeaderView>) -> bool {
    forall|i: int| 0 <= i < s.len() ==> is_valid_header(#[trigger] s[i])
}

/// `i` is the first invalid header of `s`.
pub open spec fn first_invalid(s: Seq<HeaderView>, i: int) -> bool {
    &&& 0 <= i < s.len()
    &&& !is_valid_header(s[i])
    &&& all_valid(s.take(i))
}

/// The result of pointing `u` at the destination `d`: scheme, host and port
/// from `d`, the rest from `u`.
pub open spec fn retarget(u: Url, d: Url) -> Url {
    Url { scheme: d.scheme, host: d.host, port: d.port, ..u }
}

/// The headers of a request sent to `host`: every header but those named
/// `host`, then one `host` header that holds it.
pub open spec fn with_host(s: Seq<HeaderView>, host: Seq<u8>) -> Seq<HeaderView> {
    without_name(s, host_header_name()) + seq![(host_header_name(), host)]
}

/// Removing the headers named `n` from a concatenation removes them from
/// each part.
pub proof fn lemma_without_name_concat(a: Seq<HeaderView>, b: Seq<HeaderView>, n: Seq<u8>)
    ensures
        without_name(a + b, n) == without_name(a, n) + without_name(b, n),
    decreases a.len(),
{
    if a.len() == 0 {
        assert(a + b =~= b);
        assert(without_name(a, n) + without_name(b, n) =~= without_name(b, n));
    } else {
        assert((a + b).skip(1) =~= a.skip(1) + b);
        lemma_without_name_concat(a.skip(1), b, n);
        if !name_eq(a[0].0, n) {
            assert(seq![a[0]] + without_name(a.skip(1), n) + without_name(b, n) =~= seq![a[0]]
                + (without_name(a.skip(1), n) + without_name(b, n)));
        }
    }
}

/// No header named `n` is left once they are removed.
pub proof fn lemma_without_name_twice(s: Seq<HeaderView>, n: Seq<u8>)
    ensures
        without_name(without_name(s, n), n) == without_name(s, n),
        first_value(without_name(s, n), n) is None,
    decreases s.len(),
{
    if s.len() > 0 {
        lemma_without_name_twice(s.skip(1), n);
        if !name_eq(s[0].0, n) {
            let w = seq![s[0]] + without_name(s.skip(1), n);
            assert(w.skip(1) =~= without_name(s.skip(1), n));
        }
    }
}

/// The first header named `n` after a run with no such header is the first
/// one of what follows.
pub proof fn lemma_first_value_after(s: Seq<HeaderView>, t: Seq<HeaderView>, n: Seq<u8>)
    requires
        first_value(s, n) is None,
    ensures
        first_value(s + t, n) == first_value(t, n),
    decreases s.len(),
{
    if s.len() == 0 {
        assert(s + t =~= t);
    } else {
        assert((s + t).skip(1) =~= s.skip(1) + t);
        lemma_first_value_after(s.skip(1), t, n);
    }
}

/// After a change of destination to `host`, the first `host` header holds
/// the new host, and no other is left; the headers of every other name are
/// those from before, in their order.
pub proof fn lemma_rewrite_sets_host(s: Seq<HeaderView>, host: Seq<u8>)
    ensures
        first_value(with_host(s, host), host_header_name()) == Some(host),
        without_name(with_host(s, host), host_header_name()) == without_name(
            s,
            host_header_name(),
        ),
{
    let n = host_header_name();
    let w = without_name(s, n);
    let t = seq![(n, host)];
    lemma_without_name_twice(s, n);
    lemma_first_value_after(w, t, n);
    assert(t.skip(1) =~= Seq::<HeaderView>::empty());
    assert(name_eq(t[0].0, n));
    lemma_without_name_concat(w, t, n);
    assert(without_name(Seq::<HeaderView>::empty(), n) =~= Seq::<HeaderView>::empty());
    assert(without_name(t, n) == without_name(t.skip(1), n));
    assert(without_name(t, n) =~= Seq::<HeaderView>::empty());
    assert(w + Seq::<HeaderView>::empty() =~= w);
}

fn host_name_bytes() -> (r: Vec<u8>)
    ensures
        r@ == host_header_name(),
{
    let r: Vec<u8> = vec![104u8, 111u8, 115u8, 116u8];
    assert(r@ =~= host_header_name());
    r
}

/// The position of the first header that is not valid, if any.
fn find_invalid_header(headers: &Vec<Header>) -> (r: Option<usize>)
    ensures
        match r {
            Some(i) => first_invalid(headers_view(headers@), i as int),
            None => all_valid(headers_view(headers@)),
        },
{
    let ghost hv = headers_view(headers@);
    let mut i: usize = 0;
    while i < headers.len()
        invariant
            0 <= i <= headers.len(),
            hv == headers_view(headers@),
            all_valid(hv.take(i as int)),
        decreases headers.len() - i,
    {
        let ok = valid_token(&headers[i].name) && valid_header_value(&headers[i].value);
        if !ok {
            return Some(i);
        }
        assert(hv.take(i + 1) =~= hv.take(i as int).push(hv[i as int]));
        i = i + 1;
    }
    assert(hv.take(i as int) =~= hv);
    None
}

impl RequestWrapper {
    /// The outbound request for a received one: same method, URL, headers
    /// (names, values, order and duplicates) and body.
    pub fn translate(value: ActixWebRequestWrapper) -> (r: Result<RequestWrapper, ConversionError>)
        ensures
            match r {
                Ok(w) => {
                    &&& is_token(value.req.method@)
                    &&& all_valid(headers_view(value.req.headers@))
                    &&& w.request.method@ == value.req.method@
                    &&& w.request.url == value.req.url
                    &&& w.request.headers@ == value.req.headers@
                    &&& w.request.body == Some(value.body)
                },
                Err(ConversionError::InvalidMethod) => !is_token(value.req.method@),
                Err(ConversionError::InvalidHeader { index }) => {
                    &&& is_token(value.req.method@)
                    &&& first_invalid(headers_view(value.req.headers@), index as int)
                },
            },
    {
        if !valid_token(&value.req.method) {
            return Err(ConversionError::InvalidMethod);
        }
        match find_invalid_header(&value.req.headers) {
            Some(index) => Err(ConversionError::InvalidHeader { index }),
            None => {
                let ActixWebRequestWrapper { req, body } = value;
                let InboundRequest { method, url, headers } = req;
                Ok(RequestWrapper { request: OutboundRequest { method, url, headers, body: Some(body) } })
            },
        }
    }

    /// Points the request at the scheme, host and port of `url`, keeping its
    /// path, query and fragment, and sets its `host` header to the new host.
    pub fn change_url(&mut self, url: Url) -> (r: Result<(), DestinationError>)
        ensures
            match r {
                Ok(()) => {
                    &&& is_scheme(url.scheme@)
                    &&& is_host(url.host@)
                    &&& final(self).request.url == retarget(old(self).request.url, url)
                    &&& headers_view(final(self).request.headers@) == with_host(
                        headers_view(old(self).request.headers@),
                        url.host@,
                    )
                    &&& final(self).request.method == old(self).request.method
                    &&& final(self).request.body == old(self).request.body
                },
                Err(DestinationError::InvalidScheme) => {
                    &&& !is_scheme(url.scheme@)
                    &&& *final(self) == *old(self)
                },
                Err(DestinationError::InvalidHost) => {
                    &&& is_scheme(url.scheme@)
                    &&& !is_host(url.host@)
                    &&& *final(self) == *old(self)
                },
            },
    {
        if !valid_scheme(&url.scheme) {
            return Err(DestinationError::InvalidScheme);
        }
        if !valid_host(&url.host) {
            return Err(DestinationError::InvalidHost);
        }
        let name = host_name_bytes();
        let value = copy_bytes(&url.host);
        let mut old_headers: Vec<Header> = Vec::new();
        std::mem::swap(&mut old_headers, &mut self.request.headers);
        let mut headers = remove_named(old_headers, &name);
        let ghost kept = headers@;
        headers.push(Header { name, value });
        assert(headers_view(headers@) =~= headers_view(kept) + seq![(host_header_name(), url.host@)]);
        self.request.headers = headers;
        let Url { scheme, host, port, path: _, query: _, fragment: _ } = url;
        self.request.url.scheme = scheme;
        self.request.url.host = host;
        self.request.url.port = port;
        Ok(())
    }
}

} // verus!
