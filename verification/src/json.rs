//! Framing of JSON request bodies. Every string that goes into a body is
//! quoted by `serde_json`; the library assembles the members around them.

use crate::protocol::opt_view;
use vstd::prelude::*;
use vstd::string::StringExecFns;

verus! {

/// The JSON string literal that `serde_json` writes for `s`: `s` in double
/// quotes, with the characters that JSON requires escaped.
pub uninterp spec fn json_string(s: Seq<char>) -> Seq<char>;

/// Calls `serde_json::to_string` on a `str`. Claims that the call succeeds
/// and returns the named literal: the function fails only when a `Serialize`
/// impl reports an error or a map has non-string keys, and a `str` is
/// serialized by escaping it into an in-memory buffer, which cannot fail.
#[verifier::external_body]
fn serde_quote(s: &str) -> (r: Result<String, serde_json::Error>)
    ensures
        r is Ok,
        r->Ok_0@ == json_string(s@),
{
    serde_json::to_string(s)
}

/// The JSON string literal for `s`.
pub fn json_quoted(s: &str) -> (r: String)
    ensures
        r@ == json_string(s@),
{
    match serde_quote(s) {
        Ok(t) => t,
        Err(_) => String::new(),
    }
}

/// `v` where it is present, the JSON `null` where it is not.
pub open spec fn or_null(v: Option<Seq<char>>) -> Seq<char> {
    match v {
        Some(t) => t,
        None => "null"@,
    }
}

/// The JSON literal of an optional string: quoted, or `null`.
pub open spec fn json_opt_string(v: Option<Seq<char>>) -> Seq<char> {
    match v {
        Some(t) => json_string(t),
        None => "null"@,
    }
}

/// The quoted strings of `items`, separated by commas.
pub open spec fn quoted_list(items: Seq<Seq<char>>) -> Seq<char>
    decreases items.len(),
{
    if items.len() == 0 {
        Seq::empty()
    } else if items.len() == 1 {
        json_string(items[0])
    } else {
        quoted_list(items.drop_last()) + ","@ + json_string(items.last())
    }
}

/// The JSON array of the strings `items`.
pub open spec fn json_string_array(items: Seq<Seq<char>>) -> Seq<char> {
    "["@ + quoted_list(items) + "]"@
}

/// The character sequences of a vector of strings.
pub open spec fn strings_view(v: Seq<String>) -> Seq<Seq<char>> {
    v.map_values(|s: String| s@)
}

/// Writes the JSON array of the strings in `items`.
pub fn json_array_of(items: &Vec<String>) -> (r: String)
    ensures
        r@ == json_string_array(strings_view(items@)),
{
    let ghost all = strings_view(items@);
    let mut out = "[".to_string();
    let n = items.len();
    for i in 0..n
        invariant
            n == items@.len(),
            all == strings_view(items@),
            out@ == "["@ + quoted_list(all.take(i as int)),
    {
        let q = json_quoted(items[i].as_str());
        if i > 0 {
            out.append(",");
        }
        out.append(q.as_str());
        assert(all.take(i + 1).drop_last() =~= all.take(i as int));
    }
    assert(all.take(n as int) =~= all);
    out.append("]");
    out
}

/// Writes the JSON literal of an optional string.
pub fn json_opt_quoted(v: &Option<String>) -> (r: String)
    ensures
        r@ == json_opt_string(opt_view(*v)),
{
    match v {
        Some(t) => json_quoted(t.as_str()),
        None => "null".to_string(),
    }
}

} // verus!
