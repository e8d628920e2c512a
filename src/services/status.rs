use vstd::prelude::*;

verus! {

/// The character of a decimal digit `d` (0 to 9).
pub open spec fn digit_char(d: int) -> char {
    ((48 + d) as u8) as char
}

/// The three decimal digits of a code between 100 and 999.
pub open spec fn three_digits(code: int) -> Seq<char> {
    seq![digit_char(code / 100), digit_char((code / 10) % 10), digit_char(code % 10)]
}

/// The status line that the HTTP library prints for a code: its digits, a
/// space, then the canonical reason phrase.
pub uninterp spec fn status_text(code: u16) -> Seq<char>;

/// Relies on http::StatusCode::from_u16 (accepts 100 to 599) and on the
/// `Display` impl of http::StatusCode, which writes the code, a space and the
/// canonical reason (or a placeholder for an unknown code).
#[verifier::external_body]
fn status_line(code: u16) -> (r: String)
    requires
        100 <= code < 600,
    ensures
        r@ == status_text(code),
        r@.len() >= 4,
        r@.subrange(0, 3) == three_digits(code as int),
        r@[3] == ' ',
{
    match http::StatusCode::from_u16(code) {
        Ok(status) => status.to_string(),
        Err(_) => String::new(),
    }
}

/// An HTTP response status, a code between 100 and 599 as the HTTP library
/// accepts it.
#[derive(Clone, Copy, Debug, PartialEq, Eq)]
pub struct StatusCode {
    code: u16,
}

impl StatusCode {
    #[verifier::type_invariant]
    spec fn inv(&self) -> bool {
        100 <= self.code < 600
    }

    /// The numeric code.
    pub closed spec fn value(&self) -> u16 {
        self.code
    }

    /// Makes a status from its numeric code; `None` outside 100 to 599.
    pub fn from_u16(code: u16) -> (r: Option<StatusCode>)
        ensures
            r is Some <==> 100 <= code < 600,
            r matches Some(s) ==> s.value() == code,
    {
        if 100 <= code && code < 600 {
            Some(StatusCode { code })
        } else {
            None
        }
    }

    /// The numeric code.
    pub fn as_u16(&self) -> (r: u16)
        ensures
            r == self.value(),
            100 <= r < 600,
    {
        proof {
            use_type_invariant(self);
        }
        self.code
    }

    /// Whether the status is in the success class 200 to 299.
    pub fn is_success(&self) -> (r: bool)
        ensures
            r == (200 <= self.value() < 300),
    {
        200 <= self.code && self.code < 300
    }

    /// The status line: the three digits of the code, a space and the reason.
    pub fn status_line(&self) -> (r: String)
        ensures
            r@ == status_text(self.value()),
            r@.len() >= 4,
            r@.subrange(0, 3) == three_digits(self.value() as int),
            r@[3] == ' ',
    {
        let code = self.as_u16();
        status_line(code)
    }
}

} // verus!
