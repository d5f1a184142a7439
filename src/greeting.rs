//! The greeting that an instruction's data asks for.

use vstd::prelude::*;
use vstd::string::StringExecFns;
use vstd::utf8::{decode_utf8, valid_utf8};

verus! {

/// The text that `String::from_utf8_lossy` makes of `b`: `b` decoded as
/// UTF-8, each invalid sequence replaced by U+FFFD.
pub uninterp spec fn lossy_text(b: Seq<u8>) -> Seq<char>;

/// Relies on `String::from_utf8_lossy`: the text depends on the bytes alone,
/// and bytes that are valid UTF-8 decode as they are.
#[verifier::external_body]
fn decode_lossy(b: &[u8]) -> (r: String)
    ensures
        r@ == lossy_text(b@),
        valid_utf8(b@) ==> r@ == decode_utf8(b@),
{
    String::from_utf8_lossy(b).into_owned()
}

/// The greeting used when the instruction names nobody.
pub open spec fn default_greeting() -> Seq<char> {
    "Hello, Solana!"@
}

/// The greeting addressed to `name`.
pub open spec fn greeting_to(name: Seq<char>) -> Seq<char> {
    "Hello, "@ + name + "!"@
}

/// The greeting for an instruction whose data is `data`.
pub open spec fn greeting_of(data: Seq<u8>) -> Seq<char> {
    if data.len() == 0 {
        default_greeting()
    } else {
        greeting_to(lossy_text(data))
    }
}

/// The greeting addressed to `name`: `Hello, <name>!`.
pub fn greet(name: &str) -> (r: String)
    ensures
        r@ == greeting_to(name@),
{
    let mut s = String::from_str("Hello, ");
    s.append(name);
    s.append("!");
    s
}

/// The greeting for the instruction data `data`: the default greeting when it
/// is empty, else the greeting to `data` read as lossy UTF-8.
pub fn greeting(data: &[u8]) -> (r: String)
    ensures
        r@ == greeting_of(data@),
        data@.len() == 0 ==> r@ == default_greeting(),
        data@.len() != 0 && valid_utf8(data@) ==> r@ == greeting_to(decode_utf8(data@)),
{
    if data.len() == 0 {
        String::from_str("Hello, Solana!")
    } else {
        let name = decode_lossy(data);
        greet(name.as_str())
    }
}

} // verus!
