//! Text helpers shared by the error messages of the server and the games.

use vstd::prelude::*;
use vstd::string::*;

verus! {

/// The character of a decimal digit `d` (`0 <= d < 10`).
pub open spec fn digit_char(d: nat) -> char {
    (48 + d) as char
}

/// The decimal representation of `n`, without sign or leading zeros.
pub open spec fn decimal(n: nat) -> Seq<char>
    decreases n,
{
    if n < 10 {
        seq![digit_char(n)]
    } else {
        decimal(n / 10).push(digit_char(n % 10))
    }
}

/// Renders `n` in decimal.
///
/// Calls `ToString::to_string` on a `usize`, whose `Display` impl writes the
/// number in base ten with no padding; the contract claims exactly that.
#[verifier::external_body]
pub(crate) fn usize_to_string(n: usize) -> (res: String)
    ensures
        res@ == decimal(n as nat),
{
    n.to_string()
}

/// What the `Debug` formatting of a string gives for the characters `s`: the
/// string between double quotes, with double quotes, backslashes, control
/// characters and some other characters escaped (single quotes are left as
/// they are).
pub uninterp spec fn debug_quoted(s: Seq<char>) -> Seq<char>;

/// Renders `s` the way `{:?}` does.
///
/// Calls `format!("{:?}", s)`, the `Debug` impl of `str`; its result depends
/// on `s` alone and is named `debug_quoted`. Unicode escaping rules are not
/// written out.
#[verifier::external_body]
pub(crate) fn str_debug(s: &str) -> (res: String)
    ensures
        res@ == debug_quoted(s@),
{
    format!("{:?}", s)
}

/// The `Debug` text of an `Option<usize>`: `None` or `Some(n)`.
pub open spec fn option_debug(o: Option<usize>) -> Seq<char> {
    match o {
        None => "None"@,
        Some(v) => "Some("@ + decimal(v as nat) + ")"@,
    }
}

/// Renders an `Option<usize>` the way `{:?}` does.
pub fn option_usize_debug(o: Option<usize>) -> (res: String)
    ensures
        res@ == option_debug(o),
{
    match o {
        None => String::from_str("None"),
        Some(v) => {
            let mut s = String::from_str("Some(");
            let digits = usize_to_string(v);
            s.append(digits.as_str());
            s.append(")");
            s
        },
    }
}

} // verus!
