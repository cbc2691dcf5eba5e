//! Where a schema comes from: the URL that the macro input quotes, the
//! attribute that names it on a derived type, the cache file that keeps a
//! fetched schema, and the document of it that is read.
use vstd::prelude::*;

use crate::text::push_str;
use crate::text::spec_nat_decimal;
use crate::text::spec_split;
use crate::text::split_on;
use crate::text::str_eq;
use crate::text::string_of;
use crate::text::u64_to_decimal;
use crate::yaml::YamlNode;

verus! {

/// The directory that keeps fetched schemas.
pub const CACHE_DIR: &'static str = ".tapioca-cache";

/// The URL quoted in a macro's input: the text between its first two
/// double quotes, or after the first one when there is no second.
pub open spec fn spec_quoted_url(source: Seq<char>) -> Option<Seq<char>> {
    let parts = spec_split(source, '"');
    if parts.len() > 1 {
        Some(parts[1])
    } else {
        None
    }
}

/// The URL quoted in a macro's input; `None` when it holds no double quote.
pub fn quoted_url(source: &str) -> (url: Option<String>)
    ensures
        match url {
            Some(u) => spec_quoted_url(source@) == Some(u@),
            None => spec_quoted_url(source@) is None,
        },
{
    let parts = split_on(source, '"');
    if parts.len() > 1 {
        Some(string_of(parts[1].as_str()))
    } else {
        None
    }
}

/// The name of the file that caches the schema whose URL hashes to `hash`.
pub open spec fn spec_cache_file_name(hash: u64) -> Seq<char> {
    spec_nat_decimal(hash as nat) + ".yml"@
}

/// The name of the file that caches the schema whose URL hashes to `hash`:
/// the hash in decimal, with the `.yml` extension.
pub fn cache_file_name(hash: u64) -> (name: String)
    ensures
        name@ == spec_cache_file_name(hash),
{
    let mut name = u64_to_decimal(hash);
    push_str(&mut name, ".yml");
    name
}

/// The path of a cache file, under the cache directory.
pub fn cache_path(schema_fname: &str) -> (path: String)
    ensures
        path@ == CACHE_DIR@ + "/"@ + schema_fname@,
{
    let mut path = string_of(CACHE_DIR);
    push_str(&mut path, "/");
    push_str(&mut path, schema_fname);
    path
}

/// Why no schema document could be had.
#[derive(Debug, PartialEq, Eq, Structural)]
pub enum SourceError {
    /// The text is not YAML.
    InvalidYaml,
    /// The YAML text holds no document.
    NoDocument,
}

/// `yaml_rust::Yaml`, the tree that `yaml_rust` parses; read only by the
/// conversion into the library's tree.
#[verifier::external_type_specification]
#[verifier::external_body]
pub struct ExRawYaml(yaml_rust::Yaml);

/// The error of `yaml_rust::YamlLoader::load_from_str`.
#[verifier::external_type_specification]
#[verifier::external_body]
pub struct ExScanError(yaml_rust::ScanError);

/// The documents that `yaml_rust::YamlLoader::load_from_str` reads from a
/// text, node for node in the library's tree, if the text is YAML.
pub uninterp spec fn spec_yaml_load(text: Seq<char>) -> Option<Seq<YamlNode>>;

/// One `yaml_rust` node in the library's tree, variant for variant, the
/// entries of a map in their order. Only `yaml_load` calls it.
#[verifier::external_body]
fn from_raw(node: &yaml_rust::Yaml) -> YamlNode {
    match node {
        yaml_rust::Yaml::Real(r) => YamlNode::Real(r.clone()),
        yaml_rust::Yaml::Integer(i) => YamlNode::Integer(*i),
        yaml_rust::Yaml::String(s) => YamlNode::String(s.clone()),
        yaml_rust::Yaml::Boolean(b) => YamlNode::Boolean(*b),
        yaml_rust::Yaml::Array(items) => YamlNode::Array(items.iter().map(from_raw).collect()),
        yaml_rust::Yaml::Hash(h) => YamlNode::Hash(h.iter().map(|(k, v)| (from_raw(k), from_raw(v))).collect()),
        yaml_rust::Yaml::Alias(a) => YamlNode::Alias(*a),
        yaml_rust::Yaml::Null => YamlNode::Null,
        yaml_rust::Yaml::BadValue => YamlNode::BadValue,
    }
}

/// `yaml_rust::YamlLoader::load_from_str`, its documents converted into the
/// library's tree. The contract names the documents; it does not say which
/// texts are YAML.
#[verifier::external_body]
fn yaml_load(text: &str) -> (res: Result<Vec<YamlNode>, yaml_rust::ScanError>)
    ensures
        res matches Ok(d) ==> spec_yaml_load(text@) == Some(d@),
        res is Err ==> spec_yaml_load(text@) is None,
{
    yaml_rust::YamlLoader::load_from_str(text).map(|docs| docs.iter().map(from_raw).collect())
}

/// The schema in a YAML text: its first document.
pub fn parse_first_doc(buf: &str) -> (res: Result<YamlNode, SourceError>)
    ensures
        match spec_yaml_load(buf@) {
            Some(d) => if d.len() > 0 {
                res == Ok::<YamlNode, SourceError>(d[0])
            } else {
                res == Err::<YamlNode, SourceError>(SourceError::NoDocument)
            },
            None => res == Err::<YamlNode, SourceError>(SourceError::InvalidYaml),
        },
{
    match yaml_load(buf) {
        Err(_) => Err(SourceError::InvalidYaml),
        Ok(docs) => {
            let mut docs = docs;
            if docs.len() == 0 {
                Err(SourceError::NoDocument)
            } else {
                Ok(docs.remove(0))
            }
        },
    }
}

/// An attribute of a derived type: its name, and its value when that is a
/// string.
pub struct SchemaAttr {
    pub name: String,
    pub value: Option<String>,
}

/// The first attribute named `SchemaURL`, if any.
pub open spec fn spec_url_attr(attrs: Seq<SchemaAttr>) -> Option<int> {
    if exists|i: int| 0 <= i < attrs.len() && (#[trigger] attrs[i]).name@ == "SchemaURL"@ {
        Some(
            choose|i: int|
                0 <= i < attrs.len() && (#[trigger] attrs[i]).name@ == "SchemaURL"@ && forall|j: int|
                    0 <= j < i ==> attrs[j].name@ != "SchemaURL"@,
        )
    } else {
        None
    }
}

/// The schema URL that the attributes of a derived type give: the value of
/// the first `SchemaURL` attribute, which must be a string. `None` when no
/// attribute has that name.
pub fn schema_url_attr(attrs: &Vec<SchemaAttr>) -> (url: Option<String>)
    requires
        spec_url_attr(attrs@) matches Some(i) ==> attrs@[i].value is Some,
    ensures
        match spec_url_attr(attrs@) {
            Some(i) => url is Some && url.unwrap()@ == attrs@[i].value.unwrap()@,
            None => url is None,
        },
{
    let n = attrs.len();
    let mut i: usize = 0;
    while i < n
        invariant
            n == attrs@.len(),
            0 <= i <= n,
            spec_url_attr(attrs@) matches Some(k) ==> attrs@[k].value is Some,
            forall|j: int| 0 <= j < i ==> (#[trigger] attrs@[j]).name@ != "SchemaURL"@,
        decreases n - i,
    {
        if str_eq(attrs[i].name.as_str(), "SchemaURL") {
            proof {
                let k = spec_url_attr(attrs@).unwrap();
                if k < i {
                    assert(attrs@[k].name@ != "SchemaURL"@);
                }
                if k > i {
                    assert(attrs@[i as int].name@ == "SchemaURL"@);
                }
                assert(k == i);
            }
            assert(spec_url_attr(attrs@) == Some(i as int));
            return match &attrs[i].value {
                Some(v) => Some(string_of(v.as_str())),
                None => {
                    proof {
                        assert(false);
                    }
                    None
                },
            };
        }
        i = i + 1;
    }
    None
}

} // verus!
