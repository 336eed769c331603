//! How a caller may hand its session cookie over: as a JSON cookie export
//! (a path to it or the text itself) or as a ready `Cookie:` header value.

use vstd::prelude::*;

verus! {

#[derive(Debug, Clone)]
pub enum Cookie {
    /// Path of a file holding a JSON array of `{name, value, ...}` objects.
    JsonPath(String),
    /// The JSON array itself.
    JsonStr(String),
    /// Path of a file holding a ready `name=value;...` header string.
    HeadPath(String),
    /// The header string itself.
    HeadStr(String),
}

} // verus!
