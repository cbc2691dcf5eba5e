//! The Rust module name of an API path.
use vstd::prelude::*;

use crate::naming::replace_char;
use crate::naming::spec_replace_char;
use crate::naming::spec_to_snake_case;
use crate::naming::spec_trim;
use crate::naming::to_snake_case;
use crate::naming::trim;
use crate::text::string_of;
use crate::yaml::YamlNode;
use super::method::Operation;
use super::method::OperationModel;
use super::method::try_infer_v3 as infer_operation;
use super::method::spec_operation;
use super::types::InferError;
use super::types::InferErrorModel;

verus! {

/// `regex::Regex`, carried through unread.
#[verifier::external_type_specification]
#[verifier::external_body]
pub struct ExRegex(regex::Regex);

/// The error of `regex::Regex::new`.
#[verifier::external_type_specification]
#[verifier::external_body]
pub struct ExRegexError(regex::Error);

/// Whether `regex::Regex::new` accepts a pattern.
pub uninterp spec fn spec_regex_compiles(pattern: Seq<char>) -> bool;

/// What `Regex::replace_all` makes of a text, for the regex of a pattern
/// and a replacement template.
pub uninterp spec fn spec_regex_replace_all(
    pattern: Seq<char>,
    text: Seq<char>,
    replacement: Seq<char>,
) -> Seq<char>;

/// `regex::Regex::new`; the contract names whether it succeeds, and says
/// that it accepts the pattern of path parameters, which uses only the
/// documented syntax of escapes, a named group and a negated class.
#[verifier::external_body]
fn regex_new(pattern: &str) -> (res: Result<regex::Regex, regex::Error>)
    ensures
        res is Ok <==> spec_regex_compiles(pattern@),
        pattern@ == spec_resource_pattern() ==> res is Ok,
{
    regex::Regex::new(pattern)
}

/// A compiled regex with the pattern it was compiled from; only `compile`
/// builds one.
struct CompiledPattern {
    regex: regex::Regex,
    pattern: String,
}

impl CompiledPattern {
    spec fn spec_pattern(&self) -> Seq<char> {
        self.pattern@
    }

    /// Compiles `pattern`.
    fn compile(pattern: &str) -> (res: Option<CompiledPattern>)
        ensures
            res is Some <==> spec_regex_compiles(pattern@),
            pattern@ == spec_resource_pattern() ==> res is Some,
            res matches Some(p) ==> p.spec_pattern() == pattern@,
    {
        match regex_new(pattern) {
            Ok(regex) => Some(CompiledPattern { regex, pattern: string_of(pattern) }),
            Err(_) => None,
        }
    }

    /// `Regex::replace_all` on the compiled regex; the contract names the
    /// result by the pattern the regex was compiled from.
    #[verifier::external_body]
    fn replace_all(&self, text: &str, replacement: &str) -> (res: String)
        ensures
            res@ == spec_regex_replace_all(self.spec_pattern(), text@, replacement@),
    {
        self.regex.replace_all(text, replacement).into_owned()
    }
}

/// A path segment `{name_}`, as snake-casing leaves a path parameter.
pub open spec fn spec_resource_pattern() -> Seq<char> {
    "\\{(?P<resource>[^}]+)_\\}"@
}

/// A path parameter's name between underscores.
pub open spec fn spec_resource_replacement() -> Seq<char> {
    "_${resource}_"@
}

/// The snake-cased path, its `/` read as spaces and its ends trimmed.
pub open spec fn spec_snake_path(path: Seq<char>) -> Seq<char> {
    spec_to_snake_case(spec_trim(spec_replace_char(path, '/', ' ')))
}

/// The module name of a path: its segments joined by `_` in snake case,
/// every path parameter `{name}` written `_name_`.
pub open spec fn spec_path_mod_ident(path: Seq<char>) -> Seq<char> {
    spec_regex_replace_all(
        spec_resource_pattern(),
        spec_snake_path(path),
        spec_resource_replacement(),
    )
}

/// The module name of a path.
pub fn mod_ident(path: &str) -> (ident: String)
    ensures
        ident@ == spec_path_mod_ident(path@),
{
    let spaced = replace_char(path, '/', ' ');
    let trimmed = trim(spaced.as_str());
    let rustified = to_snake_case(trimmed.as_str());
    match CompiledPattern::compile("\\{(?P<resource>[^}]+)_\\}") {
        Some(re) => re.replace_all(rustified.as_str(), "_${resource}_"),
        None => {
            proof {
                assert(false);
            }
            String::new()
        },
    }
}

/// The operations of a path, in the order the schema lists its methods.
pub open spec fn spec_path_ops(entries: Seq<(YamlNode, YamlNode)>) -> Option<
    Result<Seq<OperationModel>, InferErrorModel>,
>
    decreases entries.len(),
{
    if entries.len() == 0 {
        Some(Ok(Seq::empty()))
    } else {
        match spec_path_ops(entries.drop_last()) {
            Some(Ok(acc)) => match entries.last().0.spec_as_str() {
                None => None,
                Some(method) => match spec_operation(method, entries.last().1) {
                    Some(Ok(op)) => Some(Ok(acc.push(op))),
                    Some(Err(e)) => Some(Err(e)),
                    None => None,
                },
            },
            other => other,
        }
    }
}

/// A path of the API and its operations.
#[derive(Debug)]
pub struct PathItem {
    /// The module that holds the path's operations.
    pub ident: String,
    /// The path, as the schema writes it.
    pub path: String,
    pub operations: Vec<Operation>,
}

pub struct PathItemModel {
    pub ident: Seq<char>,
    pub path: Seq<char>,
    pub operations: Seq<OperationModel>,
}

pub open spec fn spec_operations_view(ops: Seq<Operation>) -> Seq<OperationModel> {
    ops.map_values(|o: Operation| o@)
}

impl View for PathItem {
    type V = PathItemModel;

    open spec fn view(&self) -> PathItemModel {
        PathItemModel {
            ident: self.ident@,
            path: self.path@,
            operations: spec_operations_view(self.operations@),
        }
    }
}

/// The path `path` that `schema` describes: `None` unless `schema` is a map
/// from method names to operations that can be read.
pub open spec fn spec_path_item(path: Seq<char>, schema: YamlNode) -> Option<
    Result<PathItemModel, InferErrorModel>,
> {
    match schema {
        YamlNode::Hash(entries) => match spec_path_ops(entries@) {
            Some(Ok(ops)) => Some(
                Ok(PathItemModel { ident: spec_path_mod_ident(path), path, operations: ops }),
            ),
            Some(Err(e)) => Some(Err(e)),
            None => None,
        },
        _ => None,
    }
}

proof fn lemma_path_ops_prefix(entries: Seq<(YamlNode, YamlNode)>, k: int)
    requires
        0 <= k <= entries.len(),
    ensures
        spec_path_ops(entries.take(k)) is None ==> spec_path_ops(entries) is None,
        spec_path_ops(entries.take(k)) matches Some(Err(e)) ==> spec_path_ops(entries) == Some(
            Err::<Seq<OperationModel>, InferErrorModel>(e),
        ),
    decreases entries.len() - k,
{
    if k < entries.len() {
        lemma_path_ops_prefix(entries.drop_last(), k);
        assert(entries.drop_last().take(k) =~= entries.take(k));
    } else {
        assert(entries.take(k) =~= entries);
    }
}

/// The path `path` of the API and its operations, as `schema` describes
/// them; `None` unless `schema` is a map from method names to operations
/// that can be read.
pub fn try_infer_v3(path: &str, schema: &YamlNode) -> (res: Option<Result<PathItem, InferError>>)
    ensures
        match (res, spec_path_item(path@, *schema)) {
            (Some(Ok(p)), Some(Ok(m))) => p@ == m,
            (Some(Err(e)), Some(Err(f))) => e@ == f,
            (None, None) => true,
            _ => false,
        },
{
    let ident = mod_ident(path);
    let entries = match schema {
        YamlNode::Hash(entries) => entries,
        _ => {
            return None;
        },
    };
    let mut operations: Vec<Operation> = Vec::new();
    let n = entries.len();
    let mut i: usize = 0;
    assert(entries@.take(0) =~= Seq::<(YamlNode, YamlNode)>::empty());
    assert(spec_operations_view(operations@) =~= Seq::<OperationModel>::empty());
    while i < n
        invariant
            n == entries@.len(),
            0 <= i <= n,
            *schema == YamlNode::Hash(*entries),
            spec_path_ops(entries@.take(i as int)) matches Some(Ok(acc))
                && spec_operations_view(operations@) == acc,
        decreases n - i,
    {
        proof {
            lemma_path_ops_prefix(entries@, i as int + 1);
            assert(entries@.take(i + 1).drop_last() =~= entries@.take(i as int));
            assert(entries@.take(i + 1).last() == entries@[i as int]);
        }
        let method = match entries[i].0.as_str() {
            Some(m) => m,
            None => {
                return None;
            },
        };
        let ghost before = operations@;
        match infer_operation(method, &entries[i].1) {
            Some(Ok(op)) => {
                operations.push(op);
                assert(spec_operations_view(operations@) =~= spec_operations_view(before).push(
                    operations@.last()@,
                ));
            },
            Some(Err(e)) => {
                proof {
                    assert(spec_path_ops(entries@.take(i + 1)) matches Some(Err(f)) && e@ == f);
                }
                return Some(Err(e));
            },
            None => {
                return None;
            },
        }
        i = i + 1;
    }
    assert(entries@.take(n as int) =~= entries@);
    Some(Ok(PathItem { ident, path: string_of(path), operations }))
}

/// A path has one operation for each method it lists, in the schema's
/// order; each operation's function has the name of the module that holds
/// its types, the method in snake case.
pub proof fn lemma_path_operations(entries: Seq<(YamlNode, YamlNode)>)
    ensures
        spec_path_ops(entries) matches Some(Ok(ops)) ==> {
            &&& ops.len() == entries.len()
            &&& forall|i: int|
                0 <= i < ops.len() ==> {
                    &&& entries[i].0.spec_as_str() == Some((#[trigger] ops[i]).method)
                    &&& ops[i].fn_ident == ops[i].mod_ident
                    &&& ops[i].fn_ident == crate::naming::spec_to_snake_case(ops[i].method)
                }
        },
    decreases entries.len(),
{
    if entries.len() > 0 {
        lemma_path_operations(entries.drop_last());
        if let Some(Ok(ops)) = spec_path_ops(entries) {
            let prev = spec_path_ops(entries.drop_last()).unwrap()->Ok_0;
            assert forall|i: int| 0 <= i < ops.len() implies {
                &&& entries[i].0.spec_as_str() == Some((#[trigger] ops[i]).method)
                &&& ops[i].fn_ident == ops[i].mod_ident
                &&& ops[i].fn_ident == crate::naming::spec_to_snake_case(ops[i].method)
            } by {
                if i < ops.len() - 1 {
                    assert(ops[i] == prev[i]);
                    assert(entries.drop_last()[i] == entries[i]);
                }
            }
        }
    }
}

/// The path `path` of the API and its operations, as `schema` describes
/// them.
pub fn infer_v3(path: &str, schema: &YamlNode) -> (res: Result<PathItem, InferError>)
    requires
        spec_path_item(path@, *schema) is Some,
    ensures
        match (res, spec_path_item(path@, *schema)) {
            (Ok(x), Some(Ok(m))) => x@ == m,
            (Err(e), Some(Err(f))) => e@ == f,
            _ => false,
        },
{
    match try_infer_v3(path, schema) {
        Some(res) => res,
        None => {
            proof {
                assert(false);
            }
            Err(InferError::MissingType)
        },
    }
}

} // verus!
