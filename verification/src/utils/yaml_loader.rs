//! Loading YAML text into documents with `yaml_rust2`.
use vstd::prelude::*;

verus! {

/// A node of a loaded YAML document, variant for variant as the loader
/// makes it: a mapping keeps its entries in order, keys unique.
#[derive(Debug)]
pub enum YamlNode {
    /// A float, kept as written.
    Real(String),
    Integer(i64),
    String(String),
    Boolean(bool),
    Array(Vec<YamlNode>),
    Hash(Vec<(YamlNode, YamlNode)>),
    Alias(usize),
    Null,
    /// What a lookup of a missing key gives.
    BadValue,
}

#[verifier::external_type_specification]
#[verifier::external_body]
pub struct ExYamlDocument(yaml_rust2::Yaml);

/// The documents that `yaml_rust2::YamlLoader::load_from_str` loads from a
/// text, or the text of its scan error.
pub uninterp spec fn yaml_documents(text: Seq<char>) -> Result<Seq<YamlNode>, Seq<char>>;

pub open spec fn documents_result(r: Result<Vec<YamlNode>, String>) -> Result<Seq<YamlNode>, Seq<char>> {
    match r {
        Ok(v) => Ok(v@),
        Err(e) => Err(e@),
    }
}

/// Turns a loaded node into a `YamlNode`, variant for variant, in order.
#[verifier::external_body]
fn node_from_loaded(y: yaml_rust2::Yaml) -> YamlNode {
    match y {
        yaml_rust2::Yaml::Real(s) => YamlNode::Real(s),
        yaml_rust2::Yaml::Integer(i) => YamlNode::Integer(i),
        yaml_rust2::Yaml::String(s) => YamlNode::String(s),
        yaml_rust2::Yaml::Boolean(b) => YamlNode::Boolean(b),
        yaml_rust2::Yaml::Array(a) => YamlNode::Array(a.into_iter().map(node_from_loaded).collect()),
        yaml_rust2::Yaml::Hash(h) => YamlNode::Hash(
            h.into_iter().map(|(k, v)| (node_from_loaded(k), node_from_loaded(v))).collect(),
        ),
        yaml_rust2::Yaml::Alias(n) => YamlNode::Alias(n),
        yaml_rust2::Yaml::Null => YamlNode::Null,
        yaml_rust2::Yaml::BadValue => YamlNode::BadValue,
    }
}

/// `yaml_rust2::YamlLoader::load_from_str`: the documents of `text`, or the
/// scan error's text; the result is named by `yaml_documents`.
#[verifier::external_body]
pub(crate) fn load_documents(text: &str) -> (res: Result<Vec<YamlNode>, String>)
    ensures
        documents_result(res) == yaml_documents(text@),
{
    match yaml_rust2::YamlLoader::load_from_str(text) {
        Ok(docs) => Ok(docs.into_iter().map(node_from_loaded).collect()),
        Err(e) => Err(e.to_string()),
    }
}

} // verus!
