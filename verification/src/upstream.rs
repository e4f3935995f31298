//! What the library asks of the upstream service, and how it reads the answer.

use crate::text::{decimal, decimal_text};
use vstd::prelude::*;
use vstd::string::StringExecFns;

verus! {

/// What `serde_json` makes of an upstream body: `None` where
/// `serde_json::from_slice::<serde_json::Value>` refuses the bytes; else
/// `Some` of the length of the array that `Value::get("sends")` finds under
/// the top-level key `sends`, or `Some(None)` where there is no such key or
/// its value is not an array.
pub uninterp spec fn upstream_sends(body: Seq<u8>) -> Option<Option<usize>>;

/// `serde_json::from_slice::<serde_json::Value>` on the body, then
/// `Value::get("sends")`, read as `upstream_sends` says. Nothing more is
/// claimed of JSON than that the answer is a function of the bytes.
#[verifier::external_body]
pub(crate) fn read_sends(body: &[u8]) -> (sends: Option<Option<usize>>)
    ensures
        sends == upstream_sends(body@),
{
    match serde_json::from_slice::<serde_json::Value>(body) {
        Ok(value) => match value.get("sends") {
            Some(serde_json::Value::Array(items)) => Some(Some(items.len())),
            _ => Some(None),
        },
        Err(_) => None,
    }
}

/// A level has been sent where the upstream answer lists at least one send.
pub open spec fn has_sends(sends: Option<usize>) -> bool {
    match sends {
        Some(n) => n > 0,
        None => false,
    }
}

/// Decides `has_sends`.
pub fn lists_sends(sends: Option<usize>) -> (r: bool)
    ensures
        r == has_sends(sends),
{
    match sends {
        Some(n) => n > 0,
        None => false,
    }
}

/// The address at which the upstream service describes a level: the
/// endpoint followed by the level's number.
pub fn upstream_url(endpoint: &str, id: u32) -> (url: String)
    ensures
        url@ == endpoint@ + decimal(id as nat),
{
    let number = decimal_text(id);
    String::from_str(endpoint).concat(number.as_str())
}

} // verus!
