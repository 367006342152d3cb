//! The WebSocket-facing part of the server: errors, the game, the server
//! state and the client session protocol.

use vstd::prelude::*;
use vstd::string::*;

pub mod error;
pub mod game;
pub mod server;
pub mod session;
pub mod text;

verus! {

/// `c` with an ASCII capital letter turned into its small letter.
pub open spec fn ascii_lower(c: char) -> char {
    if 'A' <= c && c <= 'Z' {
        ((c as u32) + 32) as char
    } else {
        c
    }
}

/// `s` with its ASCII capital letters turned into small ones.
pub open spec fn ascii_lowercase(s: Seq<char>) -> Seq<char> {
    s.map_values(|c: char| ascii_lower(c))
}

/// `s` in ASCII lower case.
///
/// Calls `str::to_ascii_lowercase`, which maps `'A'..='Z'` to `'a'..='z'`
/// and leaves every other character as it is.
#[verifier::external_body]
fn to_ascii_lowercase(s: &str) -> (res: String)
    ensures
        res@ == ascii_lowercase(s@),
{
    s.to_ascii_lowercase()
}

/// The truth value a flag in a message spells: `true` or `1`, `false` or
/// `0`, in any letter case. Anything else is refused with the lowered
/// text, for the caller to report.
pub fn parse_bool_flag(s: &str) -> (res: Result<bool, String>)
    ensures
        ({
            let t = ascii_lowercase(s@);
            if t == "true"@ || t == "1"@ {
                res == Ok::<bool, String>(true)
            } else if t == "false"@ || t == "0"@ {
                res == Ok::<bool, String>(false)
            } else {
                res matches Err(e) && e@ == t
            }
        }),
{
    let lowered = to_ascii_lowercase(s);
    if lowered == String::from_str("true") || lowered == String::from_str("1") {
        Ok(true)
    } else if lowered == String::from_str("false") || lowered == String::from_str("0") {
        Ok(false)
    } else {
        Err(lowered)
    }
}

} // verus!
