//! Small pieces of text the gateway puts together.

use vstd::prelude::*;

verus! {

pub open spec fn digit_char(d: nat) -> char {
    if d == 0 { '0' }
    else if d == 1 { '1' }
    else if d == 2 { '2' }
    else if d == 3 { '3' }
    else if d == 4 { '4' }
    else if d == 5 { '5' }
    else if d == 6 { '6' }
    else if d == 7 { '7' }
    else if d == 8 { '8' }
    else { '9' }
}

/// The decimal digits of `n`, most significant first, without leading zeros.
pub open spec fn decimal(n: nat) -> Seq<char>
    decreases n,
{
    if n < 10 {
        seq![digit_char(n)]
    } else {
        decimal(n / 10) + seq![digit_char(n % 10)]
    }
}

/// Relies on u16's `to_string` (its `Display`): the number in decimal digits.
#[verifier::external_body]
pub(crate) fn decimal_text(n: u16) -> (r: String)
    ensures
        r@ == decimal(n as nat),
{
    n.to_string()
}

/// `http://<host>:<port><path>`.
pub open spec fn http_url(host: Seq<char>, port: u16, path: Seq<char>) -> Seq<char> {
    "http://"@ + host + ":"@ + decimal(port as nat) + path
}

/// Builds `http://<host>:<port><path>`.
pub fn http_url_text(host: &str, port: u16, path: &str) -> (r: String)
    ensures
        r@ == http_url(host@, port, path@),
{
    let mut r = String::from_str("http://");
    r.append(host);
    r.append(":");
    let digits = decimal_text(port);
    r.append(digits.as_str());
    r.append(path);
    r
}

} // verus!
