//! HTTP status codes as the client judges and prints them.

use crate::text::decimal;
use vstd::prelude::*;

verus! {

/// The standard reason phrase of an HTTP status code, if it has one.
pub uninterp spec fn canonical_reason(code: u16) -> Option<Seq<char>>;

/// A status line: a code, a blank and the reason phrase of that code.
pub open spec fn status_line(code: u16, reason: Option<Seq<char>>) -> Seq<char> {
    decimal(code as nat) + " "@ + (match reason {
        Some(phrase) => phrase,
        None => "<unknown status code>"@,
    })
}

/// The printed form of an HTTP status.
pub open spec fn status_text(code: u16) -> Seq<char> {
    status_line(code, canonical_reason(code))
}

/// A code between 200 and 299.
pub open spec fn successful(code: u16) -> bool {
    200 <= code < 300
}

/// Prints a `reqwest::StatusCode` through its `Display`: the code in decimal, a
/// blank, and the phrase that `StatusCode::canonical_reason` has for the code, or
/// `<unknown status code>` where it has none. `StatusCode::from_u16` accepts the
/// codes from 100 to 999. The table of phrases itself is not stated.
#[verifier::external_body]
fn print_status(code: u16) -> (printed: String)
    requires
        100 <= code <= 999,
    ensures
        printed@ == status_line(code, canonical_reason(code)),
{
    reqwest::StatusCode::from_u16(code).unwrap().to_string()
}

/// The status of an HTTP response.
#[derive(Debug, Clone, Copy, PartialEq, Eq, Structural)]
pub struct HttpStatus {
    code: u16,
}

impl View for HttpStatus {
    type V = u16;

    closed spec fn view(&self) -> u16 {
        self.code
    }
}

impl HttpStatus {
    /// Every status has three digits.
    #[verifier::type_invariant]
    closed spec fn has_three_digits(self) -> bool {
        100 <= self.code <= 999
    }

    /// The status with this code, if the code has three digits.
    pub fn new(code: u16) -> (status: Option<HttpStatus>)
        ensures
            100 <= code <= 999 <==> status is Some,
            status matches Some(status) ==> status@ == code,
    {
        if 100 <= code && code <= 999 {
            Some(HttpStatus { code })
        } else {
            None
        }
    }

    /// The numeric code.
    pub fn code(&self) -> (code: u16)
        ensures
            code == self@,
    {
        self.code
    }

    /// Tells whether the request was successfully received, understood and accepted.
    pub fn is_success(&self) -> (success: bool)
        ensures
            success == successful(self@),
    {
        200 <= self.code && self.code < 300
    }

    /// The code with its reason phrase.
    pub fn to_text(&self) -> (printed: String)
        ensures
            printed@ == status_text(self@),
    {
        proof {
            use_type_invariant(self);
        }
        print_status(self.code)
    }
}

/// Success is what the codes of the two hundreds report, and no others.
pub proof fn law_success_is_in_the_two_hundreds(code: u16)
    ensures
        successful(code) <==> code / 100 == 2,
{
}

/// A status is printed with its code in front, then a blank and the phrase.
pub proof fn law_status_starts_with_its_code(code: u16)
    ensures
        status_text(code) == decimal(code as nat) + seq![' '] + match canonical_reason(code) {
            Some(phrase) => phrase,
            None => "<unknown status code>"@,
        },
{
    reveal_strlit(" ");
    assert(" "@ =~= seq![' ']);
}

} // verus!
