//! The YAML reader behind the header: the items of `yaml_rust2` that this
//! crate calls, and what is assumed of them. Nothing in this file is proved.

use vstd::prelude::*;
use yaml_rust2::yaml::Array;
use yaml_rust2::{ScanError, Yaml, YamlLoader};

verus! {

/// `yaml_rust2::Yaml`, a node of a loaded document. Its variants are not
/// read here: a node is known by `yaml_value` alone.
#[verifier::external_type_specification]
#[verifier::external_body]
pub struct ExYaml(Yaml);

/// `yaml_rust2::ScanError`, the error of a load that failed. It is known by
/// `scan_error_text` alone.
#[verifier::external_type_specification]
#[verifier::external_body]
pub struct ExScanError(ScanError);

/// What a YAML node holds, as far as a header is read.
pub enum YamlValue {
    /// A string scalar.
    Text(Seq<char>),
    /// A sequence, by its items in document order.
    Sequence(Seq<YamlValue>),
    /// A mapping, by the values under its string keys.
    Mapping(Map<Seq<char>, YamlValue>),
    /// Any other node: a number, a boolean, null, an alias, a bad value.
    Other,
}

/// What `node` holds: `Text` for `Yaml::String`, `Sequence` for
/// `Yaml::Array` with the values of its items, `Mapping` for `Yaml::Hash`
/// with the values of the entries whose key is a `Yaml::String`, and `Other`
/// for every other variant.
pub uninterp spec fn yaml_value(node: Yaml) -> YamlValue;

/// What `YamlLoader::load_from_str` makes of `source`: the values of the
/// documents it holds, or the text of the error.
pub uninterp spec fn yaml_documents(source: Seq<char>) -> Result<Seq<YamlValue>, Seq<char>>;

/// The text that `ScanError` displays: what went wrong and where.
pub uninterp spec fn scan_error_text(error: ScanError) -> Seq<char>;

/// The values of a sequence of nodes.
pub open spec fn yaml_values(nodes: Seq<Yaml>) -> Seq<YamlValue> {
    nodes.map_values(|node: Yaml| yaml_value(node))
}

/// The value under the string key `key` of a mapping; `Other` where `node`
/// is no mapping or has no such key.
pub open spec fn field_of(node: YamlValue, key: Seq<char>) -> YamlValue {
    match node {
        YamlValue::Mapping(entries) => if entries.contains_key(key) {
            entries[key]
        } else {
            YamlValue::Other
        },
        _ => YamlValue::Other,
    }
}

/// `YamlLoader::load_from_str` reads `source` as a stream of YAML documents.
/// Assumed: what it returns depends on the characters of `source` alone. It
/// returns either all the documents or the error of the first that failed.
pub assume_specification[ YamlLoader::load_from_str ](source: &str) -> (loaded: Result<
    Vec<Yaml>,
    ScanError,
>)
    ensures
        match yaml_documents(source@) {
            Ok(values) => loaded matches Ok(docs) && yaml_values(docs@) == values,
            Err(text) => loaded matches Err(error) && scan_error_text(error) == text,
        },
;

/// `Yaml::as_str` returns the string of a `Yaml::String` node, and `None`
/// for every other node.
pub assume_specification[ Yaml::as_str ](node: &Yaml) -> (text: Option<&str>)
    ensures
        match text {
            Some(s) => yaml_value(*node) == YamlValue::Text(s@),
            None => !(yaml_value(*node) is Text),
        },
;

/// `Yaml::as_vec` returns the items of a `Yaml::Array` node, and `None` for
/// every other node.
pub assume_specification[ Yaml::as_vec ](node: &Yaml) -> (items: Option<&Array>)
    ensures
        match items {
            Some(v) => yaml_value(*node) == YamlValue::Sequence(yaml_values(v@)),
            None => !(yaml_value(*node) is Sequence),
        },
;

/// `Index<&str>` of `Yaml`: the value under the key `Yaml::String(key)` of a
/// `Yaml::Hash` node. For a node that is no hash, and for a hash without
/// that key, it returns `Yaml::BadValue`; it does not panic.
#[verifier::external_body]
pub(crate) fn field<'a>(node: &'a Yaml, key: &str) -> (value: &'a Yaml)
    ensures
        yaml_value(*value) == field_of(yaml_value(*node), key@),
{
    &node[key]
}

/// `Display` of `ScanError`, through `to_string`.
#[verifier::external_body]
pub(crate) fn scan_error_message(error: &ScanError) -> (message: String)
    ensures
        message@ == scan_error_text(*error),
{
    error.to_string()
}

} // verus!
