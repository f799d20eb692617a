//! The JSON codec: reading a text frame as a document and quoting a string,
//! both by `serde_json`.

use vstd::prelude::*;
use crate::json::{Json, JsonView};
use crate::message::ParseError;

verus! {

/// `serde_json::Value`, a parsed JSON value. Nothing inside it is visible
/// here; [`value_document`] names what it holds.
#[verifier::external_type_specification]
#[verifier::external_body]
pub struct ExValue(serde_json::Value);

/// `serde_json::Error`, the reason why a text was rejected. It is only
/// carried, never looked into.
#[verifier::external_type_specification]
#[verifier::external_body]
pub struct ExError(serde_json::Error);

/// The document that `serde_json::from_str` reads from `text`, or `None`
/// where it rejects the text.
pub uninterp spec fn parsed_document(text: Seq<char>) -> Option<JsonView>;

/// The document that a `serde_json::Value` holds.
pub uninterp spec fn value_document(value: serde_json::Value) -> JsonView;

/// How deeply the arrays and objects of a `serde_json::Value` nest.
pub uninterp spec fn value_depth(value: serde_json::Value) -> nat;

/// One level of a `serde_json::Value`: its variant, with the children still
/// in `serde_json`'s hands. A number is held as its decimal text.
enum Node<'a> {
    Null,
    Bool(bool),
    Number(String),
    Text(&'a String),
    Array(&'a Vec<serde_json::Value>),
    Object(Vec<(&'a String, &'a serde_json::Value)>),
}

/// The document of a node, given the documents of its children.
spec fn node_document(node: Node<'_>) -> JsonView {
    match node {
        Node::Null => JsonView::Null,
        Node::Bool(b) => JsonView::Bool(b),
        Node::Number(text) => JsonView::Number(text@),
        Node::Text(text) => JsonView::Text(text@),
        Node::Array(items) => JsonView::Array(
            Seq::new(items@.len(), |i: int| value_document(items@[i])),
        ),
        Node::Object(members) => JsonView::Object(
            Seq::new(members@.len(), |i: int| (members@[i].0@, value_document(*members@[i].1))),
        ),
    }
}

/// Whether every child of the node nests less deeply than `depth`.
spec fn children_below(node: Node<'_>, depth: nat) -> bool {
    match node {
        Node::Array(items) => forall|i: int|
            0 <= i < items@.len() ==> value_depth(#[trigger] items@[i]) < depth,
        Node::Object(members) => forall|i: int|
            0 <= i < members@.len() ==> value_depth(*(#[trigger] members@[i]).1) < depth,
        _ => true,
    }
}

/// `serde_json::from_str` at type `serde_json::Value`. The contract claims
/// only that the outcome is a function of the text: it succeeds exactly
/// where [`parsed_document`] is `Some`, with a value that holds that document.
#[verifier::external_body]
fn parse_value(text: &str) -> (r: Result<serde_json::Value, serde_json::Error>)
    ensures
        r is Ok <==> parsed_document(text@) is Some,
        r matches Ok(v) ==> parsed_document(text@) == Some(value_document(v)),
{
    serde_json::from_str::<serde_json::Value>(text)
}

/// Tells the six variants of `serde_json::Value` apart and hands out what
/// the variant holds; a number as the text that `serde_json::Number`'s
/// `Display` writes, an object's members in the order of the map's `iter`.
/// The contract claims that the document of the value is made of these
/// parts, and that each child nests less deeply than the value.
#[verifier::external_body]
fn open_value<'a>(value: &'a serde_json::Value) -> (node: Node<'a>)
    ensures
        node_document(node) == value_document(*value),
        children_below(node, value_depth(*value)),
{
    match value {
        serde_json::Value::Null => Node::Null,
        serde_json::Value::Bool(b) => Node::Bool(*b),
        serde_json::Value::Number(n) => Node::Number(n.to_string()),
        serde_json::Value::String(s) => Node::Text(s),
        serde_json::Value::Array(a) => Node::Array(a),
        serde_json::Value::Object(m) => Node::Object(m.iter().collect()),
    }
}

/// Copies a `serde_json::Value` into a [`Json`] document, level by level.
fn lift(value: &serde_json::Value) -> (doc: Json)
    ensures
        doc@ == value_document(*value),
    decreases value_depth(*value),
{
    match open_value(value) {
        Node::Null => Json::Null,
        Node::Bool(b) => Json::Bool(b),
        Node::Number(text) => Json::Number(text),
        Node::Text(text) => Json::Text(text.clone()),
        Node::Array(items) => {
            let mut docs: Vec<Json> = Vec::new();
            let mut i: usize = 0;
            while i < items.len()
                invariant
                    0 <= i <= items.len(),
                    docs@.len() == i,
                    forall|j: int| 0 <= j < i ==> (#[trigger] docs@[j])@ == value_document(items@[j]),
                    forall|j: int|
                        0 <= j < items@.len() ==> value_depth(#[trigger] items@[j]) < value_depth(
                            *value,
                        ),
                decreases items.len() - i,
            {
                let doc = lift(&items[i]);
                docs.push(doc);
                i += 1;
            }
            let doc = Json::Array(docs);
            assert(doc@->Array_0 =~= Seq::new(items@.len(), |j: int| value_document(items@[j])));
            doc
        },
        Node::Object(members) => {
            let mut docs: Vec<(String, Json)> = Vec::new();
            let mut i: usize = 0;
            while i < members.len()
                invariant
                    0 <= i <= members.len(),
                    docs@.len() == i,
                    forall|j: int|
                        0 <= j < i ==> {
                            &&& (#[trigger] docs@[j]).0@ == members@[j].0@
                            &&& docs@[j].1@ == value_document(*members@[j].1)
                        },
                    forall|j: int|
                        0 <= j < members@.len() ==> value_depth(*(#[trigger] members@[j]).1)
                            < value_depth(*value),
                decreases members.len() - i,
            {
                let key = members[i].0.clone();
                let doc = lift(members[i].1);
                docs.push((key, doc));
                i += 1;
            }
            let doc = Json::Object(docs);
            assert(doc@->Object_0 =~= Seq::new(
                members@.len(),
                |j: int| (members@[j].0@, value_document(*members@[j].1)),
            ));
            doc
        },
    }
}

/// Reads a text frame as a JSON document: [`ParseError::Malformed`] where
/// the text is no JSON, else the document it holds.
pub fn parse_document(text: &str) -> (r: Result<Json, ParseError>)
    ensures
        r is Ok <==> parsed_document(text@) is Some,
        r matches Ok(doc) ==> parsed_document(text@) == Some(doc@),
        r matches Err(error) ==> error == ParseError::Malformed,
{
    match parse_value(text) {
        Ok(value) => Ok(lift(&value)),
        Err(_) => Err(ParseError::Malformed),
    }
}

/// The JSON string literal that `serde_json` writes for `text`: the text
/// between double quotes, with its escapes.
pub uninterp spec fn json_string(text: Seq<char>) -> Seq<char>;

/// Whether `text` holds nothing that a JSON string literal escapes: no double
/// quote, no backslash and no control character below U+0020.
pub open spec fn is_plain(text: Seq<char>) -> bool {
    forall|i: int|
        0 <= i < text.len() ==> {
            &&& #[trigger] text[i] != '"'
            &&& text[i] != '\\'
            &&& text[i] as u32 >= 0x20
        }
}

/// `serde_json::Value::String(..)` shown by `Display`, which writes the
/// compact form. The contract claims that the result is a function of the
/// text, and that plain text comes out unchanged between two double quotes.
#[verifier::external_body]
pub(crate) fn quote_string(text: &str) -> (r: String)
    ensures
        r@ == json_string(text@),
        is_plain(text@) ==> r@ == seq!['"'] + text@ + seq!['"'],
{
    serde_json::Value::String(text.to_owned()).to_string()
}

} // verus!
