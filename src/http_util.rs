//! The failed HTTP response that a backend hands to its error parser.

use vstd::prelude::*;
use vstd::string::StringExecFns;

verus! {

/// Relies on `http::StatusCode::from_u16`, which accepts exactly the codes
/// from 100 to 999.
#[verifier::external_body]
fn is_valid_status(code: u16) -> (r: bool)
    ensures
        r == (100 <= code < 1000),
{
    http::StatusCode::from_u16(code).is_ok()
}

/// The text that `String::from_utf8_lossy` makes of the given bytes.
pub uninterp spec fn utf8_lossy(bytes: Seq<u8>) -> Seq<char>;

/// Relies on `String::from_utf8_lossy`: the bytes as text, with each invalid
/// sequence replaced. The text depends on the bytes alone.
#[verifier::external_body]
fn lossy_text(bytes: &[u8]) -> (r: String)
    ensures
        r@ == utf8_lossy(bytes@),
{
    String::from_utf8_lossy(bytes).into_owned()
}

pub open spec fn digit_char(d: nat) -> char {
    if d == 0 { '0' }
    else if d == 1 { '1' }
    else if d == 2 { '2' }
    else if d == 3 { '3' }
    else if d == 4 { '4' }
    else if d == 5 { '5' }
    else if d == 6 { '6' }
    else if d == 7 { '7' }
    else if d == 8 { '8' }
    else { '9' }
}

/// The decimal digits of `n`, most significant first, without leading zeros.
pub open spec fn decimal(n: nat) -> Seq<char>
    decreases n,
{
    if n < 10 {
        seq![digit_char(n)]
    } else {
        decimal(n / 10).push(digit_char(n % 10))
    }
}

fn digit_str(d: u16) -> (r: &'static str)
    requires
        d < 10,
    ensures
        r@ == seq![digit_char(d as nat)],
{
    proof {
        reveal_strlit("0");
        reveal_strlit("1");
        reveal_strlit("2");
        reveal_strlit("3");
        reveal_strlit("4");
        reveal_strlit("5");
        reveal_strlit("6");
        reveal_strlit("7");
        reveal_strlit("8");
        reveal_strlit("9");
    }
    if d == 0 { "0" }
    else if d == 1 { "1" }
    else if d == 2 { "2" }
    else if d == 3 { "3" }
    else if d == 4 { "4" }
    else if d == 5 { "5" }
    else if d == 6 { "6" }
    else if d == 7 { "7" }
    else if d == 8 { "8" }
    else { "9" }
}

fn decimal_string(n: u16) -> (r: String)
    ensures
        r@ == decimal(n as nat),
    decreases n,
{
    if n < 10 {
        String::from_str(digit_str(n))
    } else {
        let mut s = decimal_string(n / 10);
        s.append(digit_str(n % 10));
        s
    }
}

/// A response that a backend answered with a failure status.
pub struct ErrorResponse {
    status: u16,
    body: Vec<u8>,
}

/// What an [`ErrorResponse`] holds.
pub struct ErrorResponseView {
    pub status: u16,
    pub body: Seq<u8>,
}

impl ErrorResponseView {
    /// `status code: <code>, body: <body as text>`.
    pub open spec fn text(self) -> Seq<char> {
        "status code: "@ + decimal(self.status as nat) + ", body: "@ + utf8_lossy(self.body)
    }
}

impl View for ErrorResponse {
    type V = ErrorResponseView;

    closed spec fn view(&self) -> ErrorResponseView {
        ErrorResponseView { status: self.status, body: self.body@ }
    }
}

impl ErrorResponse {
    /// Every response carries a valid HTTP status code.
    pub open spec fn wf(&self) -> bool {
        100 <= self@.status < 1000
    }

    /// The response with the given status and body, or `None` where `status`
    /// is no valid HTTP status code.
    pub fn new(status: u16, body: Vec<u8>) -> (r: Option<Self>)
        ensures
            r is Some <==> 100 <= status < 1000,
            r matches Some(er) ==> er.wf() && er@ == (ErrorResponseView { status, body: body@ }),
    {
        if is_valid_status(status) {
            Some(ErrorResponse { status, body })
        } else {
            None
        }
    }

    pub fn status_code(&self) -> (r: u16)
        ensures
            r == self@.status,
    {
        self.status
    }

    pub fn body(&self) -> (r: &[u8])
        ensures
            r@ == self@.body,
    {
        self.body.as_slice()
    }

    /// `status code: <code>, body: <body as text>`.
    pub fn to_string(&self) -> (r: String)
        ensures
            r@ == self@.text(),
    {
        let mut s = String::from_str("status code: ");
        let code = decimal_string(self.status);
        s.append(code.as_str());
        s.append(", body: ");
        let text = lossy_text(self.body.as_slice());
        s.append(text.as_str());
        s
    }
}

} // verus!
