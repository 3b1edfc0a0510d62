use vstd::prelude::*;

use crate::body::{spec_body, Body, BodyKind};
use crate::method::Method;
use crate::version::Version;

use http::request::Parts as HttpRequestParts;
use http::response::Parts as HttpResponseParts;

verus! {

/// Declares `http::Uri` so request heads can carry a target URI. The URI is
/// opaque at this layer: it is stored and handed back, never inspected.
#[verifier::external_type_specification]
#[verifier::external_body]
pub struct ExUri(http::uri::Uri);

/// Declares `http::HeaderMap` so request heads can carry a header map. The
/// map is opaque at this layer: it is stored and handed back, never inspected.
#[verifier::external_type_specification]
#[verifier::external_body]
#[verifier::reject_recursive_types(T)]
pub struct ExHeaderMap<T>(http::header::HeaderMap<T>);

/// Declares `http::HeaderValue`, the value type of the header map.
#[verifier::external_type_specification]
#[verifier::external_body]
pub struct ExHeaderValue(http::header::HeaderValue);

/// Declares `HttpRequestParts`, the head of an embedded original HTTP
/// request, carried opaquely.
#[verifier::external_type_specification]
#[verifier::external_body]
pub struct ExHttpRequestParts(HttpRequestParts);

/// Declares `HttpResponseParts`, the head of an embedded HTTP response,
/// carried opaquely.
#[verifier::external_type_specification]
#[verifier::external_body]
pub struct ExHttpResponseParts(HttpResponseParts);

/// How many entries a header map holds.
pub uninterp spec fn header_count(m: http::header::HeaderMap<http::header::HeaderValue>) -> nat;

/// Relies on `http::HeaderMap::new`: it returns an empty header map.
#[verifier::external_body]
fn new_header_map() -> (r: http::header::HeaderMap<http::header::HeaderValue>)
    ensures
        header_count(r) == 0,
{
    http::header::HeaderMap::new()
}

/// The head of an ICAP request: method, target URI, version and headers.
#[non_exhaustive]
pub struct Parts {
    /// The request's method
    pub method: Method,
    /// The request's target URI
    pub uri: http::uri::Uri,
    /// The request's version
    pub version: Version,
    /// The request's headers
    pub headers: http::header::HeaderMap<http::header::HeaderValue>,
}

/// A full ICAP request value: the head, the embedded HTTP message parts the
/// method calls for, and an optional mode-tagged body payload.
///
/// The per-method shape (which embedded parts are present, and which tag the
/// body carries) is established by the three constructors [`Request::reqmode`],
/// [`Request::respmode`] and [`Request::options`], the single place the
/// coupling is enforced; see [`RequestView::wf`].
pub struct Request<T> {
    head: Parts,
    http_request: Option<HttpRequestParts>,
    http_response: Option<HttpResponseParts>,
    body: Option<Body<T>>,
}

/// The mathematical model of a [`Request`]: its fields as plain values.
pub ghost struct RequestView<T> {
    pub method: Method,
    pub uri: http::uri::Uri,
    pub version: Version,
    pub headers: http::header::HeaderMap<http::header::HeaderValue>,
    pub http_request: Option<HttpRequestParts>,
    pub http_response: Option<HttpResponseParts>,
    pub body: Option<Body<T>>,
}

impl<T> View for Request<T> {
    type V = RequestView<T>;

    closed spec fn view(&self) -> RequestView<T> {
        RequestView {
            method: self.head.method,
            uri: self.head.uri,
            version: self.head.version,
            headers: self.head.headers,
            http_request: self.http_request,
            http_response: self.http_response,
            body: self.body,
        }
    }
}

impl<T> RequestView<T> {
    /// The per-method legality of a request's shape:
    /// - REQMOD carries an embedded HTTP request and no HTTP response;
    /// - RESPMOD carries an embedded HTTP response, and optionally the
    ///   original HTTP request that produced it;
    /// - OPTIONS carries neither.
    ///
    /// A body, when present, is tagged with the mode that matches the method.
    pub open spec fn wf(self) -> bool {
        match self.method {
            Method::Reqmod => {
                &&& self.http_request is Some
                &&& self.http_response is None
                &&& (self.body matches Some(b) ==> b.spec_kind() == BodyKind::Request)
            },
            Method::Respmod => {
                &&& self.http_response is Some
                &&& (self.body matches Some(b) ==> b.spec_kind() == BodyKind::Response)
            },
            Method::Options => {
                &&& self.http_request is None
                &&& self.http_response is None
                &&& (self.body matches Some(b) ==> b.spec_kind() == BodyKind::Options)
            },
        }
    }
}

impl<T> Request<T> {
    /// A REQMOD request adapting the given embedded HTTP request. The
    /// embedded request is a required argument, so a REQMOD request without
    /// one cannot be formed; the body, if given, is tagged for REQMOD here.
    pub fn reqmode(
        uri: http::uri::Uri,
        http_request: HttpRequestParts,
        body: Option<T>,
    ) -> (r: Request<T>)
        ensures
            r@.method == Method::Reqmod,
            r@.uri == uri,
            r@.version == Version::Icap10,
            header_count(r@.headers) == 0,
            r@.http_request == Some(http_request),
            r@.http_response is None,
            r@.body == (match body {
                Some(t) => Some(spec_body(BodyKind::Request, t)),
                None => None::<Body<T>>,
            }),
            r@.wf(),
    {
        let tagged = match body {
            Some(t) => Some(Body::request(t)),
            None => None,
        };
        Request {
            head: Parts {
                method: Method::Reqmod,
                uri,
                version: Version::Icap10,
                headers: new_header_map(),
            },
            http_request: Some(http_request),
            http_response: None,
            body: tagged,
        }
    }

    /// A RESPMOD request adapting the given embedded HTTP response,
    /// optionally together with the original HTTP request that produced it.
    /// The embedded response is a required argument, so a RESPMOD request
    /// without one cannot be formed; the body, if given, is tagged for
    /// RESPMOD here.
    pub fn respmode(
        uri: http::uri::Uri,
        http_request: Option<HttpRequestParts>,
        http_response: HttpResponseParts,
        body: Option<T>,
    ) -> (r: Request<T>)
        ensures
            r@.method == Method::Respmod,
            r@.uri == uri,
            r@.version == Version::Icap10,
            header_count(r@.headers) == 0,
            r@.http_request == http_request,
            r@.http_response == Some(http_response),
            r@.body == (match body {
                Some(t) => Some(spec_body(BodyKind::Response, t)),
                None => None::<Body<T>>,
            }),
            r@.wf(),
    {
        let tagged = match body {
            Some(t) => Some(Body::response(t)),
            None => None,
        };
        Request {
            head: Parts {
                method: Method::Respmod,
                uri,
                version: Version::Icap10,
                headers: new_header_map(),
            },
            http_request,
            http_response: Some(http_response),
            body: tagged,
        }
    }

    /// An OPTIONS request querying a service's capabilities: it embeds no
    /// HTTP message; the body, if given, is tagged for OPTIONS here.
    pub fn options(uri: http::uri::Uri, body: Option<T>) -> (r: Request<T>)
        ensures
            r@.method == Method::Options,
            r@.uri == uri,
            r@.version == Version::Icap10,
            header_count(r@.headers) == 0,
            r@.http_request is None,
            r@.http_response is None,
            r@.body == (match body {
                Some(t) => Some(spec_body(BodyKind::Options, t)),
                None => None::<Body<T>>,
            }),
            r@.wf(),
    {
        let tagged = match body {
            Some(t) => Some(Body::options(t)),
            None => None,
        };
        Request {
            head: Parts {
                method: Method::Options,
                uri,
                version: Version::Icap10,
                headers: new_header_map(),
            },
            http_request: None,
            http_response: None,
            body: tagged,
        }
    }

    /// The request's method.
    pub fn method(&self) -> (r: &Method)
        ensures
            *r == self@.method,
    {
        &self.head.method
    }

    /// Mutable access to the method; every other field keeps its value.
    pub fn method_mut(&mut self) -> (r: &mut Method)
        ensures
            *r == old(self)@.method,
            final(self)@ == (RequestView { method: *final(r), ..old(self)@ }),
    {
        &mut self.head.method
    }

    /// The request's target URI.
    pub fn uri(&self) -> (r: &http::uri::Uri)
        ensures
            *r == self@.uri,
    {
        &self.head.uri
    }

    /// Mutable access to the target URI; every other field keeps its value.
    pub fn uri_mut(&mut self) -> (r: &mut http::uri::Uri)
        ensures
            *r == old(self)@.uri,
            final(self)@ == (RequestView { uri: *final(r), ..old(self)@ }),
    {
        &mut self.head.uri
    }

    /// The request's version.
    pub fn version(&self) -> (r: &Version)
        ensures
            *r == self@.version,
    {
        &self.head.version
    }

    /// Mutable access to the version; every other field keeps its value.
    pub fn version_mut(&mut self) -> (r: &mut Version)
        ensures
            *r == old(self)@.version,
            final(self)@ == (RequestView { version: *final(r), ..old(self)@ }),
    {
        &mut self.head.version
    }

    /// The request's headers.
    pub fn headers(&self) -> (r: &http::header::HeaderMap<http::header::HeaderValue>)
        ensures
            *r == self@.headers,
    {
        &self.head.headers
    }

    /// Mutable access to the headers; every other field keeps its value.
    pub fn headers_mut(&mut self) -> (r: &mut http::header::HeaderMap<http::header::HeaderValue>)
        ensures
            *r == old(self)@.headers,
            final(self)@ == (RequestView { headers: *final(r), ..old(self)@ }),
    {
        &mut self.head.headers
    }

    /// The request's body, if any.
    pub fn body(&self) -> (r: &Option<Body<T>>)
        ensures
            *r == self@.body,
    {
        &self.body
    }

    /// Mutable access to the body; every other field keeps its value.
    pub fn body_mut(&mut self) -> (r: &mut Option<Body<T>>)
        ensures
            *r == old(self)@.body,
            final(self)@ == (RequestView { body: *final(r), ..old(self)@ }),
    {
        &mut self.body
    }

    /// Consume the request and return the body payload only, discarding the
    /// head and the embedded HTTP parts.
    pub fn into_body(self) -> (r: Option<T>)
        ensures
            r == (match self@.body {
                Some(b) => Some(b.spec_payload()),
                None => None::<T>,
            }),
    {
        match self.body {
            Some(b) => Some(b.into_inner()),
            None => None,
        }
    }
}

} // verus!
