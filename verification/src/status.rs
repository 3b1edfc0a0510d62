use vstd::prelude::*;
use vstd::string::StringExecFns;

verus! {

/// An ICAP response status code: an integer in `[100, 999]`.
///
/// Values can only be obtained through the validated constructors
/// [`StatusCode::from_u16`] and [`StatusCode::from_bytes`], so a value in
/// hand is always in range.
#[derive(Clone, Copy, PartialEq, Eq, PartialOrd, Ord, Hash, Debug)]
pub struct StatusCode {
    code: u16,
}

/// Error returned for an out-of-range integer or a malformed status token.
///
/// Opaque on purpose: fields may be added later without breaking callers.
#[derive(Debug)]
pub struct InvalidStatusCode {
    _priv: (),
}

impl View for StatusCode {
    type V = int;

    /// The numeric value of the status code.
    closed spec fn view(&self) -> int {
        self.code as int
    }
}

impl StatusCode {
    /// Every status code lies in `[100, 999]` (and so is never zero).
    #[verifier::type_invariant]
    pub closed spec fn inv(self) -> bool {
        100 <= self.code <= 999
    }
}

/// Whether a byte is an ASCII decimal digit.
pub open spec fn is_ascii_digit(b: u8) -> bool {
    ('0' as u8) <= b <= ('9' as u8)
}

/// The numeric value of an ASCII decimal digit byte.
pub open spec fn digit_val(b: u8) -> int {
    b - ('0' as u8)
}

/// What a three-byte status token parses to: valid exactly when it is three
/// ASCII decimal digits whose first digit is not zero; the value is then the
/// usual base-ten reading.
pub open spec fn spec_parse_status(s: Seq<u8>) -> Option<int> {
    if s.len() == 3 && is_ascii_digit(s[0]) && is_ascii_digit(s[1]) && is_ascii_digit(s[2])
        && s[0] != ('0' as u8) {
        Some(100 * digit_val(s[0]) + 10 * digit_val(s[1]) + digit_val(s[2]))
    } else {
        None
    }
}

/// The canonical reason phrase for the curated subset of ICAP-relevant
/// codes; codes outside the table have none, which is not an error.
pub open spec fn spec_reason(code: int) -> Option<Seq<char>> {
    if code == 100 {
        Some("Continue"@)
    } else if code == 204 {
        Some("No content"@)
    } else if code == 400 {
        Some("Bad Request"@)
    } else if code == 404 {
        Some("Not Found"@)
    } else if code == 405 {
        Some("Method not allower"@)
    } else if code == 408 {
        Some("Request Timeout"@)
    } else if code == 500 {
        Some("Internal Server Error"@)
    } else if code == 501 {
        Some("Not Implemented"@)
    } else if code == 502 {
        Some("Bad Gateway"@)
    } else if code == 503 {
        Some("Service Unavailable"@)
    } else if code == 505 {
        Some("ICAP Version Not Supported"@)
    } else {
        None
    }
}

/// The decimal digit `d` as a character.
pub open spec fn spec_digit_char(d: int) -> char {
    if d == 0 {
        '0'
    } else if d == 1 {
        '1'
    } else if d == 2 {
        '2'
    } else if d == 3 {
        '3'
    } else if d == 4 {
        '4'
    } else if d == 5 {
        '5'
    } else if d == 6 {
        '6'
    } else if d == 7 {
        '7'
    } else if d == 8 {
        '8'
    } else {
        '9'
    }
}

/// The three decimal digits of a code in `[100, 999]`.
pub open spec fn spec_status_digits(code: int) -> Seq<char> {
    seq![
        spec_digit_char(code / 100),
        spec_digit_char((code / 10) % 10),
        spec_digit_char(code % 10),
    ]
}

/// The display form of a status code: the three digits, a space, and the
/// canonical reason phrase or a fixed placeholder when the table has none.
pub open spec fn spec_display(code: int) -> Seq<char> {
    spec_status_digits(code) + " "@ + match spec_reason(code) {
        Some(p) => p,
        None => "<unknown status code>"@,
    }
}

impl StatusCode {
    /// Accept an integer as a status code exactly when it lies in
    /// `[100, 1000)`.
    pub fn from_u16(src: u16) -> (r: Result<StatusCode, InvalidStatusCode>)
        ensures
            match r {
                Ok(c) => 100 <= src < 1000 && c@ == src,
                Err(_) => !(100 <= src < 1000),
            },
    {
        if src < 100 || src >= 1000 {
            return Err(InvalidStatusCode::new());
        }
        Ok(StatusCode { code: src })
    }

    /// Parse a three-byte status token: exactly three ASCII decimal digits,
    /// the first one not zero. A byte outside `'0'..='9'` is rejected, never
    /// silently wrapped to a false digit.
    pub fn from_bytes(src: &[u8]) -> (r: Result<StatusCode, InvalidStatusCode>)
        ensures
            match r {
                Ok(c) => spec_parse_status(src@) == Some(c@),
                Err(_) => spec_parse_status(src@) is None,
            },
    {
        if src.len() != 3 {
            return Err(InvalidStatusCode::new());
        }

        let a = src[0].wrapping_sub('0' as u8) as u16;
        let b = src[1].wrapping_sub('0' as u8) as u16;
        let c = src[2].wrapping_sub('0' as u8) as u16;

        if a == 0 || a > 9 || b > 9 || c > 9 {
            return Err(InvalidStatusCode::new());
        }

        let status = (a * 100) + (b * 10) + c;
        Ok(StatusCode { code: status })
    }

    /// The numeric value, always in `[100, 999]`.
    pub fn as_u16(&self) -> (r: u16)
        ensures
            r == self@,
            100 <= r <= 999,
    {
        proof {
            use_type_invariant(self);
        }
        self.code
    }

    /// The canonical reason phrase for this code, if the table has one.
    pub fn canonical_reason(&self) -> (r: Option<&'static str>)
        ensures
            match r {
                Some(s) => spec_reason(self@) == Some(s@),
                None => spec_reason(self@) is None,
            },
    {
        match self.code {
            100 => Some("Continue"),
            204 => Some("No content"),
            400 => Some("Bad Request"),
            404 => Some("Not Found"),
            405 => Some("Method not allower"),
            408 => Some("Request Timeout"),
            500 => Some("Internal Server Error"),
            501 => Some("Not Implemented"),
            502 => Some("Bad Gateway"),
            503 => Some("Service Unavailable"),
            505 => Some("ICAP Version Not Supported"),
            _ => None,
        }
    }

    /// The display form `"<code> <reason>"`, with the fixed placeholder
    /// `<unknown status code>` when the table has no phrase for this code.
    pub fn display_string(&self) -> (r: String)
        ensures
            r@ == spec_display(self@),
    {
        proof {
            use_type_invariant(self);
        }
        let code = self.code;
        let mut s = digit_str(code / 100).to_owned();
        s.append(digit_str((code / 10) % 10));
        s.append(digit_str(code % 10));
        s.append(" ");
        match self.canonical_reason() {
            Some(reason) => s.append(reason),
            None => s.append("<unknown status code>"),
        }
        proof {
            reveal_strlit(" ");
            assert(s@ =~= spec_display(self@));
        }
        s
    }
}

/// The single decimal digit `d` as text.
fn digit_str(d: u16) -> (r: &'static str)
    requires
        d <= 9,
    ensures
        r@ == seq![spec_digit_char(d as int)],
{
    let r: &'static str = match d {
        0 => "0",
        1 => "1",
        2 => "2",
        3 => "3",
        4 => "4",
        5 => "5",
        6 => "6",
        7 => "7",
        8 => "8",
        _ => "9",
    };
    proof {
        reveal_strlit("0");
        reveal_strlit("1");
        reveal_strlit("2");
        reveal_strlit("3");
        reveal_strlit("4");
        reveal_strlit("5");
        reveal_strlit("6");
        reveal_strlit("7");
        reveal_strlit("8");
        reveal_strlit("9");
        assert(r@ =~= seq![spec_digit_char(d as int)]);
    }
    r
}

impl InvalidStatusCode {
    fn new() -> InvalidStatusCode {
        InvalidStatusCode { _priv: () }
    }

    /// A short description of the failure.
    pub fn message(&self) -> (r: &'static str)
        ensures
            r@ == "invalid status code"@,
    {
        "invalid status code"
    }
}

} // verus!
