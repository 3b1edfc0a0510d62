use vstd::prelude::*;
use vstd::string::StringSliceAdditionalSpecFns;

verus! {

/// An ICAP request method: one of the three tokens `REQMOD`, `RESPMOD` and
/// `OPTIONS` defined by RFC 3507. The set is closed; the only way to obtain a
/// value from untrusted input is the validated constructor [`Method::from_bytes`].
#[derive(Clone, Copy, PartialEq, Eq, Hash, Debug)]
pub enum Method {
    Reqmod,
    Respmod,
    Options,
}

/// Error returned when a byte sequence is not a valid ICAP method token.
///
/// Opaque on purpose: fields may be added later without breaking callers.
#[derive(Debug)]
pub struct InvalidMethod {
    _priv: (),
}

/// The canonical wire token of a method, as bytes.
pub open spec fn spec_token(m: Method) -> Seq<u8> {
    match m {
        Method::Reqmod => seq![('R' as u8), ('E' as u8), ('Q' as u8), ('M' as u8), ('O' as u8), ('D' as u8)],
        Method::Respmod => seq![('R' as u8), ('E' as u8), ('S' as u8), ('P' as u8), ('M' as u8), ('O' as u8), ('D' as u8)],
        Method::Options => seq![('O' as u8), ('P' as u8), ('T' as u8), ('I' as u8), ('O' as u8), ('N' as u8), ('S' as u8)],
    }
}

/// The canonical wire token of a method, as text.
pub open spec fn spec_str(m: Method) -> Seq<char> {
    match m {
        Method::Reqmod => "REQMOD"@,
        Method::Respmod => "RESPMOD"@,
        Method::Options => "OPTIONS"@,
    }
}

/// What a byte sequence parses to: exactly the three canonical tokens are
/// accepted, case-sensitively and byte-for-byte; everything else is invalid.
pub open spec fn spec_parse_method(s: Seq<u8>) -> Option<Method> {
    if s == spec_token(Method::Reqmod) {
        Some(Method::Reqmod)
    } else if s == spec_token(Method::Respmod) {
        Some(Method::Respmod)
    } else if s == spec_token(Method::Options) {
        Some(Method::Options)
    } else {
        None
    }
}

impl Method {
    /// Parse an ICAP method token. Exactly the byte strings `REQMOD`,
    /// `RESPMOD` and `OPTIONS` are accepted; comparison is case-sensitive
    /// with no trimming, and any other length or content fails.
    pub fn from_bytes(src: &[u8]) -> (r: Result<Method, InvalidMethod>)
        ensures
            match r {
                Ok(m) => spec_parse_method(src@) == Some(m),
                Err(_) => spec_parse_method(src@) is None,
            },
    {
        if src.len() == 6 {
            if src[0] == ('R' as u8) && src[1] == ('E' as u8) && src[2] == ('Q' as u8) && src[3] == ('M' as u8)
                && src[4] == ('O' as u8) && src[5] == ('D' as u8) {
                proof {
                    assert(src@ =~= spec_token(Method::Reqmod));
                }
                Ok(Method::Reqmod)
            } else {
                Err(InvalidMethod::new())
            }
        } else if src.len() == 7 {
            if src[0] == ('R' as u8) && src[1] == ('E' as u8) && src[2] == ('S' as u8) && src[3] == ('P' as u8)
                && src[4] == ('M' as u8) && src[5] == ('O' as u8) && src[6] == ('D' as u8) {
                proof {
                    assert(src@ =~= spec_token(Method::Respmod));
                }
                Ok(Method::Respmod)
            } else if src[0] == ('O' as u8) && src[1] == ('P' as u8) && src[2] == ('T' as u8) && src[3] == ('I' as u8)
                && src[4] == ('O' as u8) && src[5] == ('N' as u8) && src[6] == ('S' as u8) {
                proof {
                    assert(src@ =~= spec_token(Method::Options));
                }
                Ok(Method::Options)
            } else {
                Err(InvalidMethod::new())
            }
        } else {
            Err(InvalidMethod::new())
        }
    }

    /// The canonical uppercase token for this method.
    pub fn as_str(&self) -> (r: &'static str)
        ensures
            r@ == spec_str(*self),
            r.spec_bytes() == spec_token(*self),
    {
        let r: &'static str = match self {
            Method::Reqmod => "REQMOD",
            Method::Respmod => "RESPMOD",
            Method::Options => "OPTIONS",
        };
        proof {
            reveal_strlit("REQMOD");
            reveal_strlit("RESPMOD");
            reveal_strlit("OPTIONS");
            assert forall|i: int| 0 <= i < r@.len() implies '\0' <= #[trigger] r@[i]
                <= '\u{7f}' by {}
            vstd::utf8::is_ascii_chars_encode_utf8(r@);
            assert(r.spec_bytes() =~= spec_token(*self));
        }
        r
    }
}

/// Law: parsing the canonical token of a method yields that method back.
/// Together with the contract of [`Method::as_str`] this gives the round
/// trip `from_bytes(m.as_str().as_bytes()) == Ok(m)` for every method.
pub proof fn lemma_method_round_trip(m: Method)
    ensures
        spec_parse_method(spec_token(m)) == Some(m),
{
    match m {
        Method::Reqmod => {
        },
        Method::Respmod => {
            assert(spec_token(Method::Respmod).len() != spec_token(Method::Reqmod).len());
        },
        Method::Options => {
            assert(spec_token(Method::Options).len() != spec_token(Method::Reqmod).len());
            assert(spec_token(Method::Options)[0] != spec_token(Method::Respmod)[0]);
        },
    }
}

impl InvalidMethod {
    fn new() -> InvalidMethod {
        InvalidMethod { _priv: () }
    }

    /// A short description of the failure.
    pub fn message(&self) -> (r: &'static str)
        ensures
            r@ == "invalid ICAP method"@,
    {
        "invalid ICAP method"
    }
}

} // verus!
