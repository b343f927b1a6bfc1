//! The two halves of an HTTP exchange as plain values: what is to be sent,
//! and what came back.

use vstd::prelude::*;
use vstd::string::StringExecFns;

verus! {

/// An HTTP `POST` request that is ready to be sent.
#[derive(Debug)]
pub struct HttpRequest {
    /// Where the request goes.
    pub url: String,
    /// The headers, each a name and a value, in the order in which they are
    /// to be attached.
    pub headers: Vec<(String, String)>,
    /// The body.
    pub body: String,
}

/// A request as a mathematical value.
pub struct HttpRequestView {
    pub url: Seq<char>,
    pub headers: Seq<(Seq<char>, Seq<char>)>,
    pub body: Seq<char>,
}

impl View for HttpRequest {
    type V = HttpRequestView;

    open spec fn view(&self) -> HttpRequestView {
        HttpRequestView {
            url: self.url@,
            headers: Seq::new(
                self.headers@.len(),
                |i: int| (self.headers@[i].0@, self.headers@[i].1@),
            ),
            body: self.body@,
        }
    }
}

/// What the service answered.
#[derive(Debug)]
pub struct HttpResponse {
    /// The status code of the answer.
    pub status: u16,
    /// The body of the answer as text, or why the transport could not read it.
    pub body: Result<String, reqwest::Error>,
}

/// Whether a status code tells of success: the codes from 200 to 299 do.
pub open spec fn is_success(status: u16) -> bool {
    200 <= status < 300
}

/// The character that stands for a digit.
pub open spec fn digit_char(digit: int) -> char {
    if digit == 0 {
        '0'
    } else if digit == 1 {
        '1'
    } else if digit == 2 {
        '2'
    } else if digit == 3 {
        '3'
    } else if digit == 4 {
        '4'
    } else if digit == 5 {
        '5'
    } else if digit == 6 {
        '6'
    } else if digit == 7 {
        '7'
    } else if digit == 8 {
        '8'
    } else {
        '9'
    }
}

/// A number in decimal digits, without leading zeros.
pub open spec fn decimal(n: nat) -> Seq<char>
    decreases n,
{
    if n < 10 {
        seq![digit_char(n as int)]
    } else {
        decimal(n / 10).push(digit_char((n % 10) as int))
    }
}

/// The canonical reason phrase of a status code, where it has one.
pub uninterp spec fn reason_phrase(status: u16) -> Option<Seq<char>>;

/// A status as it is shown: the code in decimal, a space, and the canonical
/// reason phrase, or a placeholder where the code has none.
pub open spec fn status_text(status: u16) -> Seq<char> {
    decimal(status as nat) + " "@ + match reason_phrase(status) {
        Some(reason) => reason,
        None => "<unknown status code>"@,
    }
}

/// `reqwest::StatusCode::canonical_reason`, on the status that
/// `reqwest::StatusCode::from_u16` makes of the code. Trusted: the phrase
/// depends on the code alone. A code that is no status has none.
#[verifier::external_body]
fn canonical_reason(status: u16) -> (reason: Option<&'static str>)
    ensures
        reason is Some <==> reason_phrase(status) is Some,
        reason matches Some(text) ==> reason_phrase(status) == Some(text@),
{
    match reqwest::StatusCode::from_u16(status) {
        Ok(code) => code.canonical_reason(),
        Err(_) => None,
    }
}

fn digit_text(digit: u16) -> (text: &'static str)
    requires
        digit < 10,
    ensures
        text@ == seq![digit_char(digit as int)],
{
    proof {
        reveal_strlit("0");
        reveal_strlit("1");
        reveal_strlit("2");
        reveal_strlit("3");
        reveal_strlit("4");
        reveal_strlit("5");
        reveal_strlit("6");
        reveal_strlit("7");
        reveal_strlit("8");
        reveal_strlit("9");
    }
    let text = if digit == 0 {
        "0"
    } else if digit == 1 {
        "1"
    } else if digit == 2 {
        "2"
    } else if digit == 3 {
        "3"
    } else if digit == 4 {
        "4"
    } else if digit == 5 {
        "5"
    } else if digit == 6 {
        "6"
    } else if digit == 7 {
        "7"
    } else if digit == 8 {
        "8"
    } else {
        "9"
    };
    assert(text@ =~= seq![digit_char(digit as int)]);
    text
}

/// Writes a number in decimal digits.
pub fn decimal_text(n: u16) -> (text: String)
    ensures
        text@ == decimal(n as nat),
    decreases n,
{
    if n < 10 {
        String::from_str(digit_text(n))
    } else {
        let mut text = decimal_text(n / 10);
        text.append(digit_text(n % 10));
        text
    }
}

/// Writes a status as it is shown in a failure's text.
pub fn describe_status(status: u16) -> (text: String)
    ensures
        text@ == status_text(status),
{
    let mut text = decimal_text(status);
    text.append(" ");
    match canonical_reason(status) {
        Some(reason) => text.append(reason),
        None => text.append("<unknown status code>"),
    }
    text
}

} // verus!
