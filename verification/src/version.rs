//! Version resolver: an explicit version is used after stripping any leading
//! `v`; otherwise the `tag_name` field of the repository's latest-release
//! response decides, again with any leading `v` stripped.

use vstd::prelude::*;
use crate::text::strip_v_spec;
use crate::text::strip_v_prefix;

verus! {

/// The `tag_name` string field of the JSON document, when the document
/// parses as a JSON object carrying one; otherwise `None`.
pub uninterp spec fn json_tag_name(body: Seq<char>) -> Option<Seq<char>>;

/// Relies on `serde_json::from_str` and `serde_json::Value::get`: extracts
/// the `tag_name` string field of a JSON document; parsing is a function of
/// the document text alone.
#[verifier::external_body]
fn parse_tag_name(body: &str) -> (r: Option<String>)
    ensures
        match r {
            Some(tag) => json_tag_name(body@) == Some(tag@),
            None => json_tag_name(body@) is None,
        },
{
    let value: serde_json::Value = match serde_json::from_str(body) {
        Ok(v) => v,
        Err(_) => return None,
    };
    match value.get("tag_name") {
        Some(serde_json::Value::String(s)) => Some(s.clone()),
        _ => None,
    }
}

/// Resolves the version carried by a latest-release response body: the
/// `tag_name` field with any leading `v` removed, or `None` when the body
/// does not parse as an object with a string `tag_name`.
pub fn resolve_version_from_body(body: &str) -> (r: Option<String>)
    ensures
        match json_tag_name(body@) {
            Some(tag) => r matches Some(v) && v@ == strip_v_spec(tag),
            None => r is None,
        },
{
    match parse_tag_name(body) {
        Some(tag) => Some(strip_v_prefix(tag.as_str())),
        None => None,
    }
}

} // verus!
