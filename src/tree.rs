use vstd::prelude::*;

verus! {

/// A parsed structured configuration document (JSON or YAML), as a tree of
/// plain values. Numbers keep their textual form; a YAML tag keeps its text.
#[derive(Debug)]
pub enum ConfigValue {
    Null,
    Bool(bool),
    Number(String),
    Text(String),
    List(Vec<ConfigValue>),
    Table(Vec<(ConfigValue, ConfigValue)>),
    Tagged(String, Box<ConfigValue>),
}

/// Relies on `serde_json::Value` as a type only: a parsed JSON document,
/// carried opaquely from the parser to its conversion.
#[verifier::external_type_specification]
#[verifier::external_body]
pub struct ExJsonValue(serde_json::Value);

/// Relies on `serde_yaml::Value` as a type only: a parsed YAML document,
/// carried opaquely from the parser to its conversion.
#[verifier::external_type_specification]
#[verifier::external_body]
pub struct ExYamlValue(serde_yaml::Value);

/// The tree that a JSON text parses to; `None` where it is not valid JSON.
pub uninterp spec fn json_tree_of(text: Seq<char>) -> Option<ConfigValue>;

/// The tree that a YAML text parses to; `None` where it is not valid YAML.
pub uninterp spec fn yaml_tree_of(text: Seq<char>) -> Option<ConfigValue>;

/// Relies on `serde_json::from_str` into `serde_json::Value`, copied node for node.
#[verifier::external_body]
pub(crate) fn parse_json_tree(text: &str) -> (r: Option<ConfigValue>)
    ensures
        r == json_tree_of(text@),
{
    serde_json::from_str::<serde_json::Value>(text).ok().map(tree_from_json)
}

/// Relies on `serde_yaml::from_str` into `serde_yaml::Value`, copied node for node.
#[verifier::external_body]
pub(crate) fn parse_yaml_tree(text: &str) -> (r: Option<ConfigValue>)
    ensures
        r == yaml_tree_of(text@),
{
    serde_yaml::from_str::<serde_yaml::Value>(text).ok().map(tree_from_yaml)
}

/// Relies on the variants of `serde_json::Value`: one node of the tree for each.
#[verifier::external_body]
fn tree_from_json(v: serde_json::Value) -> ConfigValue {
    match v {
        serde_json::Value::Null => ConfigValue::Null,
        serde_json::Value::Bool(b) => ConfigValue::Bool(b),
        serde_json::Value::Number(n) => ConfigValue::Number(n.to_string()),
        serde_json::Value::String(s) => ConfigValue::Text(s),
        serde_json::Value::Array(a) => ConfigValue::List(a.into_iter().map(tree_from_json).collect()),
        serde_json::Value::Object(m) => ConfigValue::Table(
            m.into_iter().map(|(k, x)| (ConfigValue::Text(k), tree_from_json(x))).collect(),
        ),
    }
}

/// Relies on the variants of `serde_yaml::Value`: one node of the tree for each.
#[verifier::external_body]
fn tree_from_yaml(v: serde_yaml::Value) -> ConfigValue {
    match v {
        serde_yaml::Value::Null => ConfigValue::Null,
        serde_yaml::Value::Bool(b) => ConfigValue::Bool(b),
        serde_yaml::Value::Number(n) => ConfigValue::Number(n.to_string()),
        serde_yaml::Value::String(s) => ConfigValue::Text(s),
        serde_yaml::Value::Sequence(a) => ConfigValue::List(a.into_iter().map(tree_from_yaml).collect()),
        serde_yaml::Value::Mapping(m) => ConfigValue::Table(
            m.into_iter().map(|(k, x)| (tree_from_yaml(k), tree_from_yaml(x))).collect(),
        ),
        serde_yaml::Value::Tagged(t) => ConfigValue::Tagged(t.tag.to_string(), Box::new(tree_from_yaml(t.value))),
    }
}

} // verus!
