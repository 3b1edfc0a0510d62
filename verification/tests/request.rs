use icap::method::Method;
use icap::request::Request;
use icap::version::Version;

fn icap_uri() -> http::Uri {
    "icap://icap.example.org/service".parse().unwrap()
}

fn http_request_parts() -> http::request::Parts {
    let req = http::Request::builder()
        .method("GET")
        .uri("http://origin.example.com/page")
        .body(())
        .unwrap();
    req.into_parts().0
}

fn http_response_parts() -> http::response::Parts {
    let resp = http::Response::builder().status(200).body(()).unwrap();
    resp.into_parts().0
}

#[test]
fn reqmode_requires_the_embedded_request() {
    // The embedded HTTP request is a required argument: a REQMOD request
    // without one cannot be formed at all.
    let req: Request<u32> = Request::reqmode(icap_uri(), http_request_parts(), Some(7));
    assert!(*req.method() == Method::Reqmod);
    assert!(*req.version() == Version::ICAP_10);
    assert!(req.headers().is_empty());
    assert!(req.body().is_some());
    assert_eq!(req.into_body(), Some(7));
}

#[test]
fn reqmode_without_body() {
    let req: Request<u32> = Request::reqmode(icap_uri(), http_request_parts(), None);
    assert!(req.body().is_none());
    assert_eq!(req.into_body(), None);
}

#[test]
fn respmode_requires_the_embedded_response() {
    // The embedded HTTP response is a required argument; the original HTTP
    // request is optional.
    let req: Request<u32> =
        Request::respmode(icap_uri(), None, http_response_parts(), Some(9));
    assert!(*req.method() == Method::Respmod);
    assert_eq!(req.into_body(), Some(9));

    let with_original: Request<u32> = Request::respmode(
        icap_uri(),
        Some(http_request_parts()),
        http_response_parts(),
        None,
    );
    assert!(*with_original.method() == Method::Respmod);
    assert_eq!(with_original.into_body(), None);
}

#[test]
fn options_embeds_nothing() {
    let req: Request<u32> = Request::options(icap_uri(), Some(1));
    assert!(*req.method() == Method::Options);
    assert_eq!(req.into_body(), Some(1));
}

#[test]
fn uri_is_kept() {
    let uri = icap_uri();
    let req: Request<u32> = Request::options(uri.clone(), None);
    assert_eq!(*req.uri(), uri);
}

#[test]
fn head_fields_are_settable() {
    let mut req: Request<u32> = Request::options(icap_uri(), None);
    *req.method_mut() = Method::Reqmod;
    assert!(*req.method() == Method::Reqmod);

    let other: http::Uri = "icap://other.example.org/".parse().unwrap();
    *req.uri_mut() = other.clone();
    assert_eq!(*req.uri(), other);

    *req.version_mut() = Version::ICAP_10;
    assert!(*req.version() == Version::ICAP_10);

    req.headers_mut().insert(
        http::header::HOST,
        http::HeaderValue::from_static("icap.example.org"),
    );
    assert_eq!(req.headers().len(), 1);
}

#[test]
fn body_is_settable() {
    let mut req: Request<u32> = Request::options(icap_uri(), Some(3));
    if let Some(b) = req.body_mut().as_mut() {
        *b.as_mut() = 4;
    }
    assert_eq!(req.into_body(), Some(4));
}
