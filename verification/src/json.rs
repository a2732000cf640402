//! JSON documents as the chat proxy sees them.
//!
//! A document is a `serde_json::Value`. Verification treats it as opaque and
//! carries it through. What the proxy reads from one it asks of `serde_json`:
//! whether the document is an object, what member it has under a key, and how
//! it renders as compact text. Each answer is a fixed function of the
//! document, and gets a name here; nothing else is assumed of it.

use serde_json::Value;
use vstd::prelude::*;

verus! {

/// `serde_json::Value`, declared so that it can stand in fields and
/// signatures. Nothing inside it is visible to verification.
#[verifier::external_type_specification]
#[verifier::external_body]
pub struct ExValue(serde_json::Value);

/// Whether the document is a JSON object.
pub uninterp spec fn json_is_object(doc: Value) -> bool;

/// The member that the document holds under `key`, if it holds one.
pub uninterp spec fn json_member(doc: Value, key: Seq<char>) -> Option<Value>;

/// The compact rendering of the document.
pub uninterp spec fn json_text(doc: Value) -> Seq<char>;

/// Calls `serde_json::Value::is_object`. Trusted: the answer is the one that
/// `json_is_object` stands for.
#[verifier::external_body]
pub(crate) fn is_object(doc: &Value) -> (r: bool)
    ensures
        r == json_is_object(*doc),
{
    doc.is_object()
}

/// Calls `serde_json::Value::get` with a string key. Trusted: the member
/// handed out, or its absence, is the one that `json_member` stands for.
#[verifier::external_body]
pub(crate) fn member<'a>(doc: &'a Value, key: &str) -> (r: Option<&'a Value>)
    ensures
        r matches Some(m) ==> json_member(*doc, key@) == Some(*m),
        r is None ==> json_member(*doc, key@) is None,
{
    doc.get(key)
}

/// Calls `to_string` on a `serde_json::Value`, which goes through its
/// `Display`: the compact form, without added whitespace. Trusted: the text
/// is the one that `json_text` stands for.
#[verifier::external_body]
pub(crate) fn render(doc: &Value) -> (r: String)
    ensures
        r@ == json_text(*doc),
{
    doc.to_string()
}

} // verus!
