//! The YAML document, as `serde_yaml` parses it.
//!
//! Parsing is `serde_yaml`'s work. The library holds the parsed document as a
//! `serde_yaml::Value` and reads it through the functions of this module,
//! whose contracts are taken on trust from `serde_yaml`'s source. They are
//! stated over [`Node`], a model of what a value holds.

use vstd::prelude::*;

verus! {

/// `serde_yaml::Value`, a parsed YAML value. Nothing inside it is seen here:
/// it is read through the functions below.
#[verifier::external_type_specification]
#[verifier::external_body]
pub struct ExValue(serde_yaml::Value);

/// `serde_yaml::Error`, the parser's refusal of a text. It is only handed on
/// and turned into its message.
#[verifier::external_type_specification]
#[verifier::external_body]
pub struct ExError(serde_yaml::Error);

/// What a `serde_yaml::Value` holds, as far as its accessors show it.
///
/// The accessors look through YAML tags, so a tagged value is modelled by
/// what it tags. A mapping is modelled by its entries under string keys, the
/// only ones that a lookup by string can reach.
pub enum Node {
    Null,
    Boolean(bool),
    /// A number. `unsigned` is its value where it is an integer from 0 to
    /// `u64::MAX`; `binary64` is the IEEE-754 encoding of its value as a
    /// double, which every number has.
    Number { unsigned: Option<u64>, binary64: u64 },
    Text(Seq<char>),
    Sequence(Seq<Node>),
    Mapping(Map<Seq<char>, Node>),
}

/// What a `serde_yaml::Value` holds: the model of which every function of
/// this module speaks.
pub uninterp spec fn node_of(value: serde_yaml::Value) -> Node;

/// What `serde_yaml::from_str` makes of a text: the document it parses to,
/// or `None` where it refuses the text.
pub uninterp spec fn document_of(text: Seq<char>) -> Option<Node>;

/// What a mapping holds under a key; `None` for a node that is no mapping.
pub open spec fn child(node: Node, key: Seq<char>) -> Option<Node> {
    match node {
        Node::Mapping(entries) => if entries.contains_key(key) {
            Some(entries[key])
        } else {
            None
        },
        _ => None,
    }
}

/// What each value of a list holds.
pub open spec fn nodes_of(values: Seq<serde_yaml::Value>) -> Seq<Node> {
    Seq::new(values.len(), |i: int| node_of(values[i]))
}

/// `serde_yaml::from_str::<Value>`: parses a text that holds one YAML
/// document. The result is a function of the text alone; nothing else is
/// claimed of it.
#[verifier::external_body]
pub(crate) fn parse(text: &str) -> (r: Result<serde_yaml::Value, serde_yaml::Error>)
    ensures
        match r {
            Ok(value) => document_of(text@) == Some(node_of(value)),
            Err(_) => document_of(text@) is None,
        },
{
    serde_yaml::from_str::<serde_yaml::Value>(text)
}

/// `Value::get` with a string: the value under that string key where the
/// value is a mapping that has the key, `None` otherwise.
#[verifier::external_body]
pub(crate) fn entry<'a>(value: &'a serde_yaml::Value, key: &str) -> (r: Option<
    &'a serde_yaml::Value,
>)
    ensures
        match child(node_of(*value), key@) {
            Some(node) => r matches Some(found) && node_of(*found) == node,
            None => r is None,
        },
{
    value.get(key)
}

/// `Value::as_str`: the text of a string, `None` for any other value.
#[verifier::external_body]
pub(crate) fn text<'a>(value: &'a serde_yaml::Value) -> (r: Option<&'a str>)
    ensures
        match node_of(*value) {
            Node::Text(s) => r matches Some(found) && found@ == s,
            _ => r is None,
        },
{
    value.as_str()
}

/// `Value::as_u64`: the value of a number that is an integer from 0 to
/// `u64::MAX`, `None` for any other value.
#[verifier::external_body]
pub(crate) fn unsigned(value: &serde_yaml::Value) -> (r: Option<u64>)
    ensures
        r == (match node_of(*value) {
            Node::Number { unsigned, .. } => unsigned,
            _ => None,
        }),
{
    value.as_u64()
}

/// `Value::as_f64`, which gives every number as a double and `None` for any
/// other value; the double is handed on as its encoding.
#[verifier::external_body]
pub(crate) fn binary64(value: &serde_yaml::Value) -> (r: Option<u64>)
    ensures
        r == (match node_of(*value) {
            Node::Number { binary64, .. } => Some(binary64),
            _ => None,
        }),
{
    value.as_f64().map(|double| double.to_bits())
}

/// `Value::as_sequence`: the items of a sequence, in order, `None` for any
/// other value.
#[verifier::external_body]
pub(crate) fn items<'a>(value: &'a serde_yaml::Value) -> (r: Option<&'a Vec<serde_yaml::Value>>)
    ensures
        match node_of(*value) {
            Node::Sequence(nodes) => r matches Some(found) && nodes_of(found@) == nodes,
            _ => r is None,
        },
{
    value.as_sequence()
}

/// `Value::is_mapping`: whether the value is a mapping.
#[verifier::external_body]
pub(crate) fn is_mapping(value: &serde_yaml::Value) -> (r: bool)
    ensures
        r == (node_of(*value) is Mapping),
{
    value.is_mapping()
}

} // verus!
