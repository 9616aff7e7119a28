//! HTTP/1.1 requests and their text on the wire.

use crate::dict::{distinct_keys, has_key, put, Dict};
use crate::http::url::URI;
use crate::text::{decimal, push_decimal};
use vstd::prelude::*;
use vstd::utf8::encode_utf8;

verus! {

/// The request methods that the encoder knows.
#[derive(Debug, Clone, Copy, PartialEq, Eq, Structural)]
pub enum HTTPMethod {
    POST,
    GET,
    DELETE,
}

impl Default for HTTPMethod {
    fn default() -> (m: HTTPMethod)
        ensures
            m == HTTPMethod::GET,
    {
        HTTPMethod::GET
    }
}

/// The value of the `Host` header where none is configured: requests go
/// to a daemon on a local socket, which does not look at it.
pub open spec fn default_host() -> Seq<char> {
    "127.0.0.1"@
}

/// The method as it stands in the request line.
pub open spec fn method_text(m: HTTPMethod) -> Seq<char> {
    match m {
        HTTPMethod::GET => "GET"@,
        HTTPMethod::POST => "POST"@,
        HTTPMethod::DELETE => "DELETE"@,
    }
}

/// One header line, led by the line break that ends the line before it.
pub open spec fn header_line(h: (Seq<char>, Seq<char>)) -> Seq<char> {
    "\r\n"@ + h.0 + ": "@ + h.1
}

/// The header lines of `hs`, in order.
pub open spec fn header_block(hs: Seq<(Seq<char>, Seq<char>)>) -> Seq<char>
    decreases hs.len(),
{
    if hs.len() == 0 {
        Seq::empty()
    } else {
        header_block(hs.drop_last()) + header_line(hs.last())
    }
}

/// The headers that describe the body: `Content-Length`, with the body's
/// length in bytes, and `Content-Type`, for a POST with a body that is not
/// empty; none for any other request.
pub open spec fn framing_headers(m: HTTPMethod, body: Seq<char>) -> Seq<(Seq<char>, Seq<char>)> {
    if m == HTTPMethod::POST && body.len() > 0 {
        seq![
            ("Content-Length"@, decimal(encode_utf8(body).len())),
            ("Content-Type"@, "application/json"@),
        ]
    } else {
        Seq::empty()
    }
}

/// All headers of a request as they are sent: the caller's own, in order
/// of first insertion, then `Host`, then the framing headers.
pub open spec fn sent_headers(
    own: Seq<(Seq<char>, Seq<char>)>,
    host: Seq<char>,
    m: HTTPMethod,
    body: Seq<char>,
) -> Seq<(Seq<char>, Seq<char>)> {
    own.push(("Host"@, host)) + framing_headers(m, body)
}

/// A request on the wire: the request line, the header lines, an empty
/// line and the body.
pub open spec fn message_text(
    method: Seq<char>,
    target: Seq<char>,
    headers: Seq<(Seq<char>, Seq<char>)>,
    body: Seq<char>,
) -> Seq<char> {
    method + " "@ + target + " HTTP/1.1"@ + header_block(headers) + "\r\n\r\n"@ + body
}

/// A request: a method, a target, headers and a body. Made by a
/// [`RequestBuilder`], and not changed after that.
#[derive(Debug)]
pub struct Request {
    method: HTTPMethod,
    url: URI,
    headers: Dict<String>,
    content: String,
}

/// Accumulates the parts of a [`Request`].
#[derive(Debug)]
pub struct RequestBuilder {
    method: HTTPMethod,
    url: URI,
    headers: Dict<String>,
    content: String,
}

impl Default for RequestBuilder {
    fn default() -> (b: Self)
        ensures
            b.method_set() == HTTPMethod::GET,
            b.target() == Seq::<char>::empty(),
            b.headers() == Seq::<(Seq<char>, Seq<char>)>::empty(),
            b.body() == Seq::<char>::empty(),
    {
        RequestBuilder::with_method(HTTPMethod::GET)
    }
}

impl RequestBuilder {
    /// The method set so far.
    pub closed spec fn method_set(&self) -> HTTPMethod {
        self.method
    }

    /// The text of the target set so far.
    pub closed spec fn target(&self) -> Seq<char> {
        self.url.text()
    }

    /// The headers set so far, in order of first insertion.
    pub closed spec fn headers(&self) -> Seq<(Seq<char>, Seq<char>)> {
        self.headers.deep_view()
    }

    /// The body set so far.
    pub closed spec fn body(&self) -> Seq<char> {
        self.content@
    }

    /// A builder for a GET request with an empty target, no header and an
    /// empty body.
    pub fn new() -> (b: Self)
        ensures
            b.method_set() == HTTPMethod::GET,
            b.target() == Seq::<char>::empty(),
            b.headers() == Seq::<(Seq<char>, Seq<char>)>::empty(),
            b.body() == Seq::<char>::empty(),
    {
        RequestBuilder::with_method(HTTPMethod::GET)
    }

    /// A builder for a request with the method `method`, an empty target,
    /// no header and an empty body.
    pub fn with_method(method: HTTPMethod) -> (b: Self)
        ensures
            b.method_set() == method,
            b.target() == Seq::<char>::empty(),
            b.headers() == Seq::<(Seq<char>, Seq<char>)>::empty(),
            b.body() == Seq::<char>::empty(),
    {
        let b = RequestBuilder {
            method,
            url: URI::new().build(),
            headers: Dict::new(),
            content: String::new(),
        };
        assert(b.headers() =~= Seq::<(Seq<char>, Seq<char>)>::empty());
        b
    }

    /// Sets the method.
    pub fn method(&mut self, method: HTTPMethod) -> (ret: &mut Self)
        ensures
            ret.method_set() == method,
            ret.target() == old(self).target(),
            ret.headers() == old(self).headers(),
            ret.body() == old(self).body(),
            *final(self) == *final(ret),
    {
        self.method = method;
        self
    }

    /// Sets the target.
    pub fn url(&mut self, url: URI) -> (ret: &mut Self)
        ensures
            ret.method_set() == old(self).method_set(),
            ret.target() == url.text(),
            ret.headers() == old(self).headers(),
            ret.body() == old(self).body(),
            *final(self) == *final(ret),
    {
        self.url = url;
        self
    }

    /// Sets the header `key` to `value`: a header with this name is
    /// overwritten in place, a new name is appended.
    pub fn header(&mut self, key: &str, value: &str) -> (ret: &mut Self)
        ensures
            ret.method_set() == old(self).method_set(),
            ret.target() == old(self).target(),
            ret.headers() == put(old(self).headers(), key@, value@),
            ret.body() == old(self).body(),
            *final(self) == *final(ret),
    {
        self.headers.set(key, value.to_owned());
        self
    }

    /// Sets the body.
    pub fn content(&mut self, content: &str) -> (ret: &mut Self)
        ensures
            ret.method_set() == old(self).method_set(),
            ret.target() == old(self).target(),
            ret.headers() == old(self).headers(),
            ret.body() == content@,
            *final(self) == *final(ret),
    {
        self.content = content.to_owned();
        self
    }

    /// The request with the parts set so far.
    pub fn build(&self) -> (r: Request)
        ensures
            r.method() == self.method_set(),
            r.target() == self.target(),
            r.headers() == self.headers(),
            r.body() == self.body(),
            r.wf(),
    {
        let headers = self.headers.clone();
        assert(headers.deep_view() =~= self.headers.deep_view());
        proof {
            use_type_invariant(&headers);
            headers.lemma_wf();
            assert forall|i: int, j: int| 0 <= i < j < headers.deep_view().len() implies (
            #[trigger] headers.deep_view()[i]).0 != (#[trigger] headers.deep_view()[j]).0 by {
                assert(headers@[i].0 != headers@[j].0);
            }
        }
        Request {
            method: self.method,
            url: self.url.clone(),
            headers,
            content: self.content.clone(),
        }
    }
}

impl Request {
    /// The method.
    pub closed spec fn method(&self) -> HTTPMethod {
        self.method
    }

    /// The text of the target.
    pub closed spec fn target(&self) -> Seq<char> {
        self.url.text()
    }

    /// The caller's headers, in order of first insertion.
    pub closed spec fn headers(&self) -> Seq<(Seq<char>, Seq<char>)> {
        self.headers.deep_view()
    }

    /// The body.
    pub closed spec fn body(&self) -> Seq<char> {
        self.content@
    }

    /// The validity of a request: no header name occurs twice among the
    /// caller's headers.
    pub closed spec fn wf(&self) -> bool {
        distinct_keys(self.headers.deep_view())
    }

    /// In a valid request the caller's header names are distinct.
    pub proof fn lemma_wf(&self)
        requires
            self.wf(),
        ensures
            distinct_keys(self.headers()),
    {
    }

    /// All headers as they are sent with the `Host` value `host`.
    pub open spec fn headers_sent(&self, host: Seq<char>) -> Seq<(Seq<char>, Seq<char>)> {
        sent_headers(self.headers(), host, self.method(), self.body())
    }

    /// The request on the wire with the `Host` value `host`.
    pub open spec fn text(&self, host: Seq<char>) -> Seq<char> {
        message_text(
            method_text(self.method()),
            self.target(),
            self.headers_sent(host),
            self.body(),
        )
    }

    /// A builder for a GET request.
    pub fn new() -> (b: RequestBuilder)
        ensures
            b.method_set() == HTTPMethod::GET,
            b.target() == Seq::<char>::empty(),
            b.headers() == Seq::<(Seq<char>, Seq<char>)>::empty(),
            b.body() == Seq::<char>::empty(),
    {
        RequestBuilder::new()
    }

    /// A builder for a GET request.
    pub fn get() -> (b: RequestBuilder)
        ensures
            b.method_set() == HTTPMethod::GET,
            b.target() == Seq::<char>::empty(),
            b.headers() == Seq::<(Seq<char>, Seq<char>)>::empty(),
            b.body() == Seq::<char>::empty(),
    {
        RequestBuilder::with_method(HTTPMethod::GET)
    }

    /// A builder for a POST request.
    pub fn post() -> (b: RequestBuilder)
        ensures
            b.method_set() == HTTPMethod::POST,
            b.target() == Seq::<char>::empty(),
            b.headers() == Seq::<(Seq<char>, Seq<char>)>::empty(),
            b.body() == Seq::<char>::empty(),
    {
        RequestBuilder::with_method(HTTPMethod::POST)
    }

    /// A builder for a DELETE request.
    pub fn delete() -> (b: RequestBuilder)
        ensures
            b.method_set() == HTTPMethod::DELETE,
            b.target() == Seq::<char>::empty(),
            b.headers() == Seq::<(Seq<char>, Seq<char>)>::empty(),
            b.body() == Seq::<char>::empty(),
    {
        RequestBuilder::with_method(HTTPMethod::DELETE)
    }

    /// The request on the wire, with the `Host` value `host`: the request
    /// line, the caller's headers in order of first insertion, `Host`,
    /// then `Content-Length` and `Content-Type` for a POST with a body
    /// that is not empty, an empty line, and the body.
    pub fn render(&self, host: &str) -> (s: String)
        ensures
            s@ == self.text(host@),
    {
        let mut s = String::new();
        let ghost own = self.headers();
        proof {
            reveal_strlit("GET");
            reveal_strlit("POST");
            reveal_strlit("DELETE");
            reveal_strlit(" ");
            reveal_strlit(" HTTP/1.1");
        }
        match self.method {
            HTTPMethod::GET => s.append("GET"),
            HTTPMethod::POST => s.append("POST"),
            HTTPMethod::DELETE => s.append("DELETE"),
        }
        s.append(" ");
        self.url.write_to(&mut s);
        s.append(" HTTP/1.1");
        let ghost line = method_text(self.method()) + " "@ + self.target() + " HTTP/1.1"@;
        assert(s@ =~= line);
        let n = self.headers.len();
        let mut i: usize = 0;
        while i < n
            invariant
                i <= n,
                n == self.headers@.len(),
                own == self.headers(),
                s@ == line + header_block(own.take(i as int)),
            decreases n - i,
        {
            let ghost before = s@;
            s.append("\r\n");
            s.append(self.headers.key_at(i).as_str());
            s.append(": ");
            s.append(self.headers.value_at(i).as_str());
            proof {
                let next = own.take(i + 1);
                assert(next.drop_last() =~= own.take(i as int));
                assert(next.last() == own[i as int]);
                assert(s@ =~= before + header_line(own[i as int]));
                assert(s@ =~= line + header_block(next));
            }
            i += 1;
        }
        assert(own.take(n as int) =~= own);
        let ghost with_host = own.push(("Host"@, host@));
        s.append("\r\nHost: ");
        s.append(host);
        proof {
            reveal_strlit("\r\nHost: ");
            reveal_strlit("\r\n");
            reveal_strlit(": ");
            reveal_strlit("Host");
            assert(with_host.drop_last() =~= own);
            assert(s@ =~= line + header_block(own) + header_line(("Host"@, host@)));
            assert(s@ =~= line + header_block(with_host));
        }
        let ghost all = self.headers_sent(host@);
        let is_post = match self.method {
            HTTPMethod::POST => true,
            _ => false,
        };
        if is_post && !self.content.as_str().is_empty() {
            let ghost length = ("Content-Length"@, decimal(encode_utf8(self.body()).len()));
            let ghost kind = ("Content-Type"@, "application/json"@);
            s.append("\r\nContent-Length: ");
            push_decimal(&mut s, self.content.as_str().as_bytes().len());
            s.append("\r\nContent-Type: application/json");
            proof {
                reveal_strlit("\r\nContent-Length: ");
                reveal_strlit("\r\nContent-Type: application/json");
                reveal_strlit("\r\n");
                reveal_strlit(": ");
                reveal_strlit("Content-Length");
                reveal_strlit("Content-Type");
                reveal_strlit("application/json");
                let mid = with_host.push(length);
                assert(framing_headers(self.method(), self.body()) =~= seq![length, kind]);
                assert(all =~= mid.push(kind));
                assert(all.drop_last() =~= mid);
                assert(mid.drop_last() =~= with_host);
                assert(header_block(mid) == header_block(with_host) + header_line(length));
                assert(header_block(all) == header_block(mid) + header_line(kind));
                assert(s@ =~= line + header_block(with_host) + header_line(length) + header_line(
                    kind,
                ));
                assert(s@ =~= line + header_block(all));
            }
        } else {
            assert(all =~= with_host);
        }
        s.append("\r\n\r\n");
        s.append(self.content.as_str());
        proof {
            reveal_strlit("\r\n\r\n");
            assert(s@ =~= self.text(host@));
        }
        s
    }

    /// The request on the wire with the `Host` value `127.0.0.1`.
    pub fn to_string(&self) -> (s: String)
        ensures
            s@ == self.text(default_host()),
    {
        self.render("127.0.0.1")
    }
}

/// Among the headers `hs`, exactly one has the name `name`, and its value
/// is `value`.
pub open spec fn sent_once(hs: Seq<(Seq<char>, Seq<char>)>, name: Seq<char>, value: Seq<char>) -> bool {
    exists|i: int|
        0 <= i < hs.len() && #[trigger] hs[i] == (name, value) && forall|j: int|
            0 <= j < hs.len() && j != i ==> (#[trigger] hs[j]).0 != name
}

/// A GET request without a body is sent without a `Content-Length` and
/// without a `Content-Type` header, whatever its target and `Host` value,
/// unless the caller set a header of that name.
pub proof fn lemma_get_without_body_is_unframed(req: Request, host: Seq<char>)
    requires
        req.method() == HTTPMethod::GET,
        req.body().len() == 0,
        !has_key(req.headers(), "Content-Length"@),
        !has_key(req.headers(), "Content-Type"@),
    ensures
        !has_key(req.headers_sent(host), "Content-Length"@),
        !has_key(req.headers_sent(host), "Content-Type"@),
{
    reveal_strlit("Host");
    reveal_strlit("Content-Length");
    reveal_strlit("Content-Type");
    let own = req.headers();
    let sent = req.headers_sent(host);
    assert(sent =~= own.push(("Host"@, host)));
    assert("Host"@.len() != "Content-Length"@.len());
    assert("Host"@.len() != "Content-Type"@.len());
    assert forall|i: int| 0 <= i < sent.len() implies (#[trigger] sent[i]).0 != "Content-Length"@
        && sent[i].0 != "Content-Type"@ by {
        if i < own.len() {
            assert(own[i].0 != "Content-Length"@);
            assert(own[i].0 != "Content-Type"@);
        }
    }
}

/// A POST request with a body that is not empty is sent with exactly one
/// `Content-Length` header, which gives the body's length in bytes as a
/// decimal numeral, and exactly one `Content-Type: application/json`
/// header, unless the caller set a header of that name.
pub proof fn lemma_post_with_body_is_framed(req: Request, host: Seq<char>)
    requires
        req.method() == HTTPMethod::POST,
        req.body().len() > 0,
        !has_key(req.headers(), "Content-Length"@),
        !has_key(req.headers(), "Content-Type"@),
    ensures
        sent_once(
            req.headers_sent(host),
            "Content-Length"@,
            decimal(encode_utf8(req.body()).len()),
        ),
        sent_once(req.headers_sent(host), "Content-Type"@, "application/json"@),
{
    reveal_strlit("Host");
    reveal_strlit("Content-Length");
    reveal_strlit("Content-Type");
    let own = req.headers();
    let sent = req.headers_sent(host);
    let n = own.len() as int;
    assert("Host"@.len() != "Content-Length"@.len());
    assert("Host"@.len() != "Content-Type"@.len());
    assert("Content-Length"@.len() != "Content-Type"@.len());
    assert(sent.len() == n + 3);
    assert(sent[n] == ("Host"@, host));
    assert(sent[n + 1] == ("Content-Length"@, decimal(encode_utf8(req.body()).len())));
    assert(sent[n + 2] == ("Content-Type"@, "application/json"@));
    assert forall|j: int| 0 <= j < n implies (#[trigger] sent[j]).0 != "Content-Length"@
        && sent[j].0 != "Content-Type"@ by {
        assert(sent[j] == own[j]);
        assert(own[j].0 != "Content-Length"@);
        assert(own[j].0 != "Content-Type"@);
    }
}

} // verus!
