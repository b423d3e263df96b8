//! JSON text of the two response bodies. Strings are encoded by `serde_json`;
//! the objects and the array around them are framed here.

use vstd::prelude::*;
use vstd::string::StringExecFns;
use crate::text::{join, joined, texts};

verus! {

/// The JSON string literal that `serde_json` writes for the text `s`: the
/// quoted and escaped form, as a function of the text alone.
pub uninterp spec fn json_string(s: Seq<char>) -> Seq<char>;

/// Each text replaced by its JSON string literal.
pub open spec fn json_strings(items: Seq<Seq<char>>) -> Seq<Seq<char>> {
    items.map_values(|s: Seq<char>| json_string(s))
}

/// An object with the single member `error`, whose value is the already
/// encoded `error`.
pub open spec fn single_frame(error: Seq<char>) -> Seq<char> {
    "{\"error\":"@ + error + "}"@
}

/// An object with the members `error` and `errors`: the first is the already
/// encoded `error`, the second an array of the already encoded `items`.
pub open spec fn group_frame(error: Seq<char>, items: Seq<Seq<char>>) -> Seq<char> {
    "{\"error\":"@ + error + ",\"errors\":["@ + joined(items, ","@) + "]}"@
}

/// The body that reports one error.
pub open spec fn error_body(description: Seq<char>) -> Seq<char> {
    single_frame(json_string(description))
}

/// The body that reports several errors: `error` is all descriptions joined
/// by a line feed, `errors` lists them one by one, in order.
pub open spec fn errors_body(descriptions: Seq<Seq<char>>) -> Seq<char> {
    group_frame(json_string(joined(descriptions, "\n"@)), json_strings(descriptions))
}

/// Calls `serde_json::to_string` on a `str`. Trusted: the result is the JSON
/// string literal of `s`, named `json_string`. Serialising a `str` into a
/// `String` has no failing path in `serde_json` (the only error it forwards is
/// one of the writer, and the writer is a `Vec<u8>`), so the call returns `Ok`.
#[verifier::external_body]
fn encode_string(s: &str) -> (out: String)
    ensures
        out@ == json_string(s@),
{
    match serde_json::to_string(s) {
        Ok(out) => out,
        Err(_) => String::new(),
    }
}

/// The JSON string literal of each item, in order.
pub fn encode_all(items: &Vec<String>) -> (out: Vec<String>)
    ensures
        texts(out@) == json_strings(texts(items@)),
{
    let mut out: Vec<String> = Vec::new();
    let mut i: usize = 0;
    while i < items.len()
        invariant
            i <= items.len(),
            out@.len() == i,
            forall|k: int| 0 <= k < i ==> (#[trigger] out@[k])@ == json_string(items@[k]@),
        decreases items.len() - i,
    {
        out.push(encode_string(items[i].as_str()));
        i += 1;
    }
    proof {
        assert(texts(out@) =~= json_strings(texts(items@)));
    }
    out
}

/// Frames an already encoded string as the body of one error.
pub fn frame_single(error: &str) -> (out: String)
    ensures
        out@ == single_frame(error@),
{
    let mut out = String::new();
    out.append("{\"error\":");
    out.append(error);
    out.append("}");
    proof {
        assert(out@ =~= single_frame(error@));
    }
    out
}

/// Frames an already encoded summary and already encoded items as the body of
/// a group of errors.
pub fn frame_group(error: &str, items: &Vec<String>) -> (out: String)
    ensures
        out@ == group_frame(error@, texts(items@)),
{
    let list = join(items, ",");
    let mut out = String::new();
    out.append("{\"error\":");
    out.append(error);
    out.append(",\"errors\":[");
    out.append(list.as_str());
    out.append("]}");
    proof {
        assert(out@ =~= group_frame(error@, texts(items@)));
    }
    out
}

/// The JSON body for one error with the given description.
pub fn error_body_text(description: &str) -> (out: String)
    ensures
        out@ == error_body(description@),
{
    let encoded = encode_string(description);
    frame_single(encoded.as_str())
}

/// The JSON body for a group of errors with the given descriptions.
pub fn errors_body_text(descriptions: &Vec<String>) -> (out: String)
    ensures
        out@ == errors_body(texts(descriptions@)),
{
    let summary = join(descriptions, "\n");
    let error = encode_string(summary.as_str());
    let items = encode_all(descriptions);
    frame_group(error.as_str(), &items)
}

} // verus!
