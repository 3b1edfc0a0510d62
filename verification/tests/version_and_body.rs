use icap::body::Body;
use icap::version::Version;

#[test]
fn default_version_is_icap_10() {
    assert!(Version::default() == Version::ICAP_10);
}

#[test]
fn version_token() {
    assert_eq!(Version::ICAP_10.as_str(), "ICAP/1.0");
}

#[test]
fn payload_retrieval_is_tag_independent() {
    assert_eq!(Body::request(7).into_inner(), 7);
    assert_eq!(Body::response(7).into_inner(), 7);
    assert_eq!(Body::options(7).into_inner(), 7);
}

#[test]
fn body_read_access() {
    let b = Body::request(String::from("payload"));
    assert_eq!(b.as_ref(), "payload");
    assert_eq!(b.into_inner(), "payload");
}

#[test]
fn body_write_access() {
    let mut b = Body::options(1);
    *b.as_mut() = 2;
    assert_eq!(b.into_inner(), 2);
}
