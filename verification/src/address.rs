//! The addresses under which the service is reached: always the loopback
//! interface, on the port that was allocated.

use vstd::prelude::*;
use vstd::string::*;

verus! {

/// The address of the loopback interface, the only one that the service is
/// bound to and reached on.
pub const LOOPBACK: &'static str = "127.0.0.1";

/// The character that stands for one decimal digit.
pub open spec fn digit_char(d: int) -> char {
    if d == 0 {
        '0'
    } else if d == 1 {
        '1'
    } else if d == 2 {
        '2'
    } else if d == 3 {
        '3'
    } else if d == 4 {
        '4'
    } else if d == 5 {
        '5'
    } else if d == 6 {
        '6'
    } else if d == 7 {
        '7'
    } else if d == 8 {
        '8'
    } else {
        '9'
    }
}

/// The decimal numeral of `n`, most significant digit first and without
/// leading zeros.
pub open spec fn decimal(n: nat) -> Seq<char>
    decreases n,
{
    if n < 10 {
        seq![digit_char(n as int)]
    } else {
        decimal(n / 10).push(digit_char((n % 10) as int))
    }
}

/// The address that the user interface loads once the service answers.
pub open spec fn service_url_text(port: u16) -> Seq<char> {
    "http://"@ + LOOPBACK@ + ":"@ + decimal(port as nat)
}

/// The address that the readiness probe requests.
pub open spec fn readiness_url_text(port: u16) -> Seq<char> {
    service_url_text(port) + "/"@
}

fn digit_text(d: u16) -> (text: &'static str)
    requires
        d < 10,
    ensures
        text@ == seq![digit_char(d as int)],
{
    proof {
        reveal_strlit("0");
        reveal_strlit("1");
        reveal_strlit("2");
        reveal_strlit("3");
        reveal_strlit("4");
        reveal_strlit("5");
        reveal_strlit("6");
        reveal_strlit("7");
        reveal_strlit("8");
        reveal_strlit("9");
    }
    let text = if d == 0 {
        "0"
    } else if d == 1 {
        "1"
    } else if d == 2 {
        "2"
    } else if d == 3 {
        "3"
    } else if d == 4 {
        "4"
    } else if d == 5 {
        "5"
    } else if d == 6 {
        "6"
    } else if d == 7 {
        "7"
    } else if d == 8 {
        "8"
    } else {
        "9"
    };
    assert(text@ =~= seq![digit_char(d as int)]);
    text
}

/// Writes a port, or any other 16-bit number, in decimal.
pub fn decimal_text(n: u16) -> (text: String)
    ensures
        text@ == decimal(n as nat),
    decreases n,
{
    if n < 10 {
        String::from_str(digit_text(n))
    } else {
        let mut text = decimal_text(n / 10);
        text.append(digit_text(n % 10));
        assert(text@ =~= decimal(n as nat));
        text
    }
}

pub fn service_url(port: u16) -> (url: String)
    ensures
        url@ == service_url_text(port),
{
    let mut url = String::from_str("http://");
    url.append(LOOPBACK);
    url.append(":");
    let digits = decimal_text(port);
    url.append(digits.as_str());
    url
}

pub fn readiness_url(port: u16) -> (url: String)
    ensures
        url@ == readiness_url_text(port),
{
    let mut url = service_url(port);
    url.append("/");
    url
}

} // verus!
