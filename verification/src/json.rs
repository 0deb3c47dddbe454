//! The crate's window onto the JSON library.
//!
//! A decoded document is handed to verified code as a plain tree of
//! library-owned values, so that navigation and field extraction are
//! ordinary verified functions.  What the outside parser returns for a
//! given text is a function of that text alone; it is given a name,
//! `spec_json_tree`, and the one trusted wrapper promises to return
//! exactly the named tree.

use vstd::prelude::*;

verus! {

/// A JSON document as a plain tree: numbers are kept as their source
/// text, and object members keep the parser's order.
pub enum JsonTree {
    Null,
    Bool(bool),
    Num(String),
    Str(String),
    Arr(Vec<JsonTree>),
    Obj(Vec<(String, JsonTree)>),
}

/// The tree that the outside JSON parser produces for a given text,
/// `None` when the text is not one well-formed JSON document.
pub uninterp spec fn spec_json_tree(s: Seq<char>) -> Option<JsonTree>;

#[verifier::external_type_specification]
#[verifier::external_body]
pub struct ExValue(serde_json::Value);

/// Relies on the serde_json::Value variants: projects a decoded value
/// onto the library's tree, variant by variant, converting only.  It
/// carries no contract of its own; it exists because an item may not
/// be declared inside the parsing wrapper's body, and only that
/// wrapper calls it.
#[verifier::external_body]
fn value_tree(v: serde_json::Value) -> JsonTree {
    match v {
        serde_json::Value::Null => JsonTree::Null,
        serde_json::Value::Bool(b) => JsonTree::Bool(b),
        serde_json::Value::Number(n) => JsonTree::Num(n.to_string()),
        serde_json::Value::String(s) => JsonTree::Str(s),
        serde_json::Value::Array(a) => JsonTree::Arr(a.into_iter().map(value_tree).collect()),
        serde_json::Value::Object(o) => JsonTree::Obj(
            o.into_iter().map(|(k, m)| (k, value_tree(m))).collect(),
        ),
    }
}

/// Relies on serde_json::from_str::<Value>: decodes one JSON document,
/// or `None` when the text is not one.  The result depends on the text
/// alone, so the contract names it.
#[verifier::external_body]
pub(crate) fn json_tree_of(s: &str) -> (r: Option<JsonTree>)
    ensures
        r == spec_json_tree(s@),
{
    match serde_json::from_str::<serde_json::Value>(s) {
        Ok(v) => Some(value_tree(v)),
        Err(_) => None,
    }
}

} // verus!
