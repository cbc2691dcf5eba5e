//! A whole OpenAPI schema: its server, the named schemas of
//! `#/components/schemas` and its paths.
use vstd::prelude::*;

use crate::text::str_eq;
use crate::text::string_of;
use crate::yaml::YamlNode;
use super::datatype::infer_into;
use super::datatype::spec_infer;
use super::path::PathItem;
use super::path::PathItemModel;
use super::path::try_infer_v3 as infer_path;
use super::path::spec_path_item;
use super::types::InferError;
use super::types::InferErrorModel;
use super::types::RustType;
use super::types::StructDef;
use super::types::StructModel;
use super::types::TypeModel;
use super::types::spec_structs_view;

verus! {

/// A field of a named object schema.
#[derive(Debug)]
pub struct RefField {
    /// The property's name, which is also the field's name.
    pub name: String,
    pub ty: RustType,
    /// A required field has the type itself; any other has `Option` of it.
    pub required: bool,
}

pub struct RefFieldModel {
    pub name: Seq<char>,
    pub ty: TypeModel,
    pub required: bool,
}

impl View for RefField {
    type V = RefFieldModel;

    open spec fn view(&self) -> RefFieldModel {
        RefFieldModel { name: self.name@, ty: self.ty@, required: self.required }
    }
}

pub open spec fn spec_ref_fields_view(fields: Seq<RefField>) -> Seq<RefFieldModel> {
    fields.map_values(|f: RefField| f@)
}

/// What a named schema becomes: a struct when it lists properties, else an
/// alias of the type its schema gives.
#[derive(Debug)]
pub enum RefDef {
    Struct(Vec<RefField>),
    Alias(RustType),
}

pub enum RefDefModel {
    Struct(Seq<RefFieldModel>),
    Alias(TypeModel),
}

impl View for RefDef {
    type V = RefDefModel;

    open spec fn view(&self) -> RefDefModel {
        match self {
            RefDef::Struct(fields) => RefDefModel::Struct(spec_ref_fields_view(fields@)),
            RefDef::Alias(ty) => RefDefModel::Alias(ty@),
        }
    }
}

/// A named schema of `#/components/schemas`.
#[derive(Debug)]
pub struct SchemaRef {
    pub name: String,
    pub def: RefDef,
    pub support: Vec<StructDef>,
}

pub struct SchemaRefModel {
    pub name: Seq<char>,
    pub def: RefDefModel,
    pub support: Seq<StructModel>,
}

impl View for SchemaRef {
    type V = SchemaRefModel;

    open spec fn view(&self) -> SchemaRefModel {
        SchemaRefModel { name: self.name@, def: self.def@, support: spec_structs_view(self.support@) }
    }
}

pub open spec fn spec_schema_refs_view(refs: Seq<SchemaRef>) -> Seq<SchemaRefModel> {
    refs.map_values(|r: SchemaRef| r@)
}

pub open spec fn spec_path_items_view(paths: Seq<PathItem>) -> Seq<PathItemModel> {
    paths.map_values(|p: PathItem| p@)
}

/// The client of a whole API.
#[derive(Debug)]
pub struct Api {
    /// The URL of the first server.
    pub api_url: String,
    pub schema_refs: Vec<SchemaRef>,
    pub paths: Vec<PathItem>,
}

pub struct ApiModel {
    pub api_url: Seq<char>,
    pub schema_refs: Seq<SchemaRefModel>,
    pub paths: Seq<PathItemModel>,
}

impl View for Api {
    type V = ApiModel;

    open spec fn view(&self) -> ApiModel {
        ApiModel {
            api_url: self.api_url@,
            schema_refs: spec_schema_refs_view(self.schema_refs@),
            paths: spec_path_items_view(self.paths@),
        }
    }
}

/// Whether a `required` list holds the string `name`.
pub open spec fn spec_lists(required: Seq<YamlNode>, name: Seq<char>) -> bool {
    exists|i: int| 0 <= i < required.len() && (#[trigger] required[i]).spec_as_str() == Some(name)
}

/// The fields gathered so far from a named schema's properties.
pub struct RefFieldsModel {
    pub fields: Seq<RefFieldModel>,
    pub support: Seq<StructModel>,
}

/// The fields of the properties `entries`, in order, their supporting
/// structs numbered from `base`. A field is required when its own schema
/// says `required: true` or the object's `required` list names it. `None`
/// where a name is not a string or a type cannot be inferred.
pub open spec fn spec_ref_fields(entries: Seq<(YamlNode, YamlNode)>, required: Seq<YamlNode>, base: nat) -> Option<
    RefFieldsModel,
>
    decreases entries.len(),
{
    if entries.len() == 0 {
        Some(RefFieldsModel { fields: Seq::empty(), support: Seq::empty() })
    } else {
        match spec_ref_fields(entries.drop_last(), required, base) {
            Some(acc) => match entries.last().0.spec_as_str() {
                None => None,
                Some(name) => {
                    let schema = entries.last().1;
                    match spec_infer(schema, base + acc.support.len()) {
                        Some(Ok(m)) => Some(
                            RefFieldsModel {
                                fields: acc.fields.push(
                                    RefFieldModel {
                                        name,
                                        ty: m.ty,
                                        required: match schema.spec_get("required"@) {
                                            Some(r) => r.spec_as_bool() == Some(true),
                                            None => false,
                                        } || spec_lists(required, name),
                                    },
                                ),
                                support: acc.support + m.support,
                            },
                        ),
                        _ => None,
                    }
                },
            },
            None => None,
        }
    }
}

/// The `required` list of an object schema: none unless it is a list.
pub open spec fn spec_required_list(schema: YamlNode) -> Seq<YamlNode> {
    match schema.spec_get("required"@) {
        Some(YamlNode::Array(items)) => items@,
        _ => Seq::empty(),
    }
}

/// The named schema `name`: a struct when `properties` is a map, else an
/// alias.
pub open spec fn spec_ref_def(name: Seq<char>, schema: YamlNode) -> Option<
    Result<SchemaRefModel, InferErrorModel>,
> {
    match schema.spec_get("properties"@) {
        Some(YamlNode::Hash(entries)) => match spec_ref_fields(
            entries@,
            spec_required_list(schema),
            0,
        ) {
            Some(acc) => Some(
                Ok(
                    SchemaRefModel {
                        name,
                        def: RefDefModel::Struct(acc.fields),
                        support: acc.support,
                    },
                ),
            ),
            None => None,
        },
        _ => match spec_infer(schema, 0) {
            Some(Ok(m)) => Some(
                Ok(SchemaRefModel { name, def: RefDefModel::Alias(m.ty), support: m.support }),
            ),
            Some(Err(e)) => Some(Err(e)),
            None => None,
        },
    }
}

/// The named schemas `entries`, in order.
pub open spec fn spec_ref_defs(entries: Seq<(YamlNode, YamlNode)>) -> Option<
    Result<Seq<SchemaRefModel>, InferErrorModel>,
>
    decreases entries.len(),
{
    if entries.len() == 0 {
        Some(Ok(Seq::empty()))
    } else {
        match spec_ref_defs(entries.drop_last()) {
            Some(Ok(acc)) => match entries.last().0.spec_as_str() {
                None => None,
                Some(name) => match spec_ref_def(name, entries.last().1) {
                    Some(Ok(r)) => Some(Ok(acc.push(r))),
                    Some(Err(e)) => Some(Err(e)),
                    None => None,
                },
            },
            other => other,
        }
    }
}

/// The paths `entries`, in order; `None` unless every one can be read and
/// inferred without error.
pub open spec fn spec_paths(entries: Seq<(YamlNode, YamlNode)>) -> Option<Seq<PathItemModel>>
    decreases entries.len(),
{
    if entries.len() == 0 {
        Some(Seq::empty())
    } else {
        match spec_paths(entries.drop_last()) {
            Some(acc) => match entries.last().0.spec_as_str() {
                None => None,
                Some(path) => match spec_path_item(path, entries.last().1) {
                    Some(Ok(p)) => Some(acc.push(p)),
                    _ => None,
                },
            },
            None => None,
        }
    }
}

/// The URL of the first server: `servers` / 0 / `url`.
pub open spec fn spec_api_url(schema: YamlNode) -> Option<Seq<char>> {
    match schema.spec_get("servers"@) {
        Some(servers) => match servers.spec_item(0) {
            Some(server) => server.spec_str_at("url"@),
            None => None,
        },
        None => None,
    }
}

/// The named schemas of `#/components/schemas`, when that is a map.
pub open spec fn spec_components(schema: YamlNode) -> Option<Seq<(YamlNode, YamlNode)>> {
    match schema.spec_get("components"@) {
        Some(c) => match c.spec_get("schemas"@) {
            Some(YamlNode::Hash(entries)) => Some(entries@),
            _ => None,
        },
        None => None,
    }
}

/// The client of a version 3 schema: `None` unless its paths, server URL
/// and named schemas can be read, and every path inferred.
pub open spec fn spec_api(schema: YamlNode) -> Option<Result<ApiModel, InferErrorModel>> {
    match schema.spec_get("paths"@) {
        Some(YamlNode::Hash(path_entries)) => match spec_paths(path_entries@) {
            None => None,
            Some(paths) => match spec_api_url(schema) {
                None => None,
                Some(api_url) => match spec_components(schema) {
                    None => None,
                    Some(ref_entries) => match spec_ref_defs(ref_entries) {
                        Some(Ok(refs)) => Some(Ok(ApiModel { api_url, schema_refs: refs, paths })),
                        Some(Err(e)) => Some(Err(e)),
                        None => None,
                    },
                },
            },
        },
        _ => None,
    }
}

/// The client of a schema, by its `openapi` version: only `3.0.0` is
/// supported.
pub open spec fn spec_infer_schema(schema: YamlNode) -> Option<Result<ApiModel, InferErrorModel>> {
    match schema.spec_str_at("openapi"@) {
        None => Some(Err(InferErrorModel::UnspecifiedVersion)),
        Some(version) => if version == "3.0.0"@ {
            spec_api(schema)
        } else {
            Some(Err(InferErrorModel::UnsupportedVersion(version)))
        },
    }
}

/// Whether a `required` list holds the string `name`.
fn lists(required: &Vec<YamlNode>, name: &str) -> (b: bool)
    ensures
        b == spec_lists(required@, name@),
{
    let n = required.len();
    let mut i: usize = 0;
    while i < n
        invariant
            n == required@.len(),
            0 <= i <= n,
            forall|j: int| 0 <= j < i ==> (#[trigger] required@[j]).spec_as_str() != Some(name@),
        decreases n - i,
    {
        match required[i].as_str() {
            Some(s) => {
                if str_eq(s, name) {
                    return true;
                }
            },
            None => {},
        }
        i = i + 1;
    }
    false
}

proof fn lemma_ref_fields_prefix(entries: Seq<(YamlNode, YamlNode)>, required: Seq<YamlNode>, k: int)
    requires
        0 <= k <= entries.len(),
    ensures
        spec_ref_fields(entries.take(k), required, 0) is None ==> spec_ref_fields(
            entries,
            required,
            0,
        ) is None,
    decreases entries.len() - k,
{
    if k < entries.len() {
        lemma_ref_fields_prefix(entries.drop_last(), required, k);
        assert(entries.drop_last().take(k) =~= entries.take(k));
    } else {
        assert(entries.take(k) =~= entries);
    }
}

/// The fields of a named object schema's properties, with the structs they
/// need; `None` where a name is not a string or a type cannot be inferred.
fn infer_ref_obj(entries: &Vec<(YamlNode, YamlNode)>, required: &Vec<YamlNode>) -> (res: Option<
    (Vec<RefField>, Vec<StructDef>),
>)
    ensures
        match (res, spec_ref_fields(entries@, required@, 0)) {
            (Some((fields, support)), Some(m)) => {
                &&& spec_ref_fields_view(fields@) == m.fields
                &&& spec_structs_view(support@) == m.support
            },
            (None, None) => true,
            _ => false,
        },
{
    let mut fields: Vec<RefField> = Vec::new();
    let mut support: Vec<StructDef> = Vec::new();
    let n = entries.len();
    let mut i: usize = 0;
    assert(entries@.take(0) =~= Seq::<(YamlNode, YamlNode)>::empty());
    assert(spec_ref_fields_view(fields@) =~= Seq::<RefFieldModel>::empty());
    assert(spec_structs_view(support@) =~= Seq::<StructModel>::empty());
    while i < n
        invariant
            n == entries@.len(),
            0 <= i <= n,
            spec_ref_fields(entries@.take(i as int), required@, 0) matches Some(acc) && {
                &&& spec_ref_fields_view(fields@) == acc.fields
                &&& spec_structs_view(support@) == acc.support
            },
        decreases n - i,
    {
        proof {
            lemma_ref_fields_prefix(entries@, required@, i as int + 1);
            assert(entries@.take(i + 1).drop_last() =~= entries@.take(i as int));
            assert(entries@.take(i + 1).last() == entries@[i as int]);
        }
        let name = match entries[i].0.as_str() {
            Some(name) => name,
            None => {
                return None;
            },
        };
        let schema = &entries[i].1;
        assert(spec_structs_view(support@).len() == support@.len());
        let ty = match infer_into(schema, &mut support) {
            Some(Ok((ty, _))) => ty,
            _ => {
                return None;
            },
        };
        let own = match schema.get("required") {
            Some(r) => match r.as_bool() {
                Some(b) => b,
                None => false,
            },
            None => false,
        };
        let is_required = own || lists(required, name);
        let ghost before = fields@;
        fields.push(RefField { name: string_of(name), ty, required: is_required });
        proof {
            assert(spec_ref_fields_view(fields@) =~= spec_ref_fields_view(before).push(
                fields@.last()@,
            ));
        }
        i = i + 1;
    }
    assert(entries@.take(n as int) =~= entries@);
    Some((fields, support))
}

/// The named schema `name` that `schema` describes; `None` where it cannot
/// be read.
fn infer_ref(name: &str, schema: &YamlNode) -> (res: Option<Result<SchemaRef, InferError>>)
    ensures
        match (res, spec_ref_def(name@, *schema)) {
            (Some(Ok(r)), Some(Ok(m))) => r@ == m,
            (Some(Err(e)), Some(Err(f))) => e@ == f,
            (None, None) => true,
            _ => false,
        },
{
    match schema.get("properties") {
        Some(YamlNode::Hash(entries)) => {
            let none: Vec<YamlNode> = Vec::new();
            let required: &Vec<YamlNode> = match schema.get("required") {
                Some(YamlNode::Array(items)) => items,
                _ => &none,
            };
            assert(required@ == spec_required_list(*schema));
            match infer_ref_obj(entries, required) {
                Some((fields, support)) => Some(
                    Ok(SchemaRef { name: string_of(name), def: RefDef::Struct(fields), support }),
                ),
                None => None,
            }
        },
        _ => {
            let mut support: Vec<StructDef> = Vec::new();
            match infer_into(schema, &mut support) {
                Some(Ok((ty, _))) => {
                    assert(spec_structs_view(support@) =~= Seq::<StructModel>::empty()
                        + spec_infer(*schema, 0).unwrap()->Ok_0.support);
                    Some(Ok(SchemaRef { name: string_of(name), def: RefDef::Alias(ty), support }))
                },
                Some(Err(e)) => Some(Err(e)),
                None => None,
            }
        },
    }
}

proof fn lemma_ref_defs_prefix(entries: Seq<(YamlNode, YamlNode)>, k: int)
    requires
        0 <= k <= entries.len(),
    ensures
        spec_ref_defs(entries.take(k)) is None ==> spec_ref_defs(entries) is None,
        spec_ref_defs(entries.take(k)) matches Some(Err(e)) ==> spec_ref_defs(entries) == Some(
            Err::<Seq<SchemaRefModel>, InferErrorModel>(e),
        ),
    decreases entries.len() - k,
{
    if k < entries.len() {
        lemma_ref_defs_prefix(entries.drop_last(), k);
        assert(entries.drop_last().take(k) =~= entries.take(k));
    } else {
        assert(entries.take(k) =~= entries);
    }
}

proof fn lemma_paths_prefix(entries: Seq<(YamlNode, YamlNode)>, k: int)
    requires
        0 <= k <= entries.len(),
    ensures
        spec_paths(entries.take(k)) is None ==> spec_paths(entries) is None,
    decreases entries.len() - k,
{
    if k < entries.len() {
        lemma_paths_prefix(entries.drop_last(), k);
        assert(entries.drop_last().take(k) =~= entries.take(k));
    } else {
        assert(entries.take(k) =~= entries);
    }
}

/// The paths of the API, in order; `None` unless every path can be read
/// and inferred without error.
fn infer_paths(entries: &Vec<(YamlNode, YamlNode)>) -> (paths: Option<Vec<PathItem>>)
    ensures
        match (paths, spec_paths(entries@)) {
            (Some(p), Some(m)) => spec_path_items_view(p@) == m,
            (None, None) => true,
            _ => false,
        },
{
    let mut paths: Vec<PathItem> = Vec::new();
    let n = entries.len();
    let mut i: usize = 0;
    assert(entries@.take(0) =~= Seq::<(YamlNode, YamlNode)>::empty());
    assert(spec_path_items_view(paths@) =~= Seq::<PathItemModel>::empty());
    while i < n
        invariant
            n == entries@.len(),
            0 <= i <= n,
            spec_paths(entries@.take(i as int)) matches Some(acc) && spec_path_items_view(paths@)
                == acc,
        decreases n - i,
    {
        proof {
            lemma_paths_prefix(entries@, i as int + 1);
            assert(entries@.take(i + 1).drop_last() =~= entries@.take(i as int));
            assert(entries@.take(i + 1).last() == entries@[i as int]);
        }
        let path = match entries[i].0.as_str() {
            Some(p) => p,
            None => {
                return None;
            },
        };
        let ghost before = paths@;
        match infer_path(path, &entries[i].1) {
            Some(Ok(item)) => {
                paths.push(item);
                assert(spec_path_items_view(paths@) =~= spec_path_items_view(before).push(
                    paths@.last()@,
                ));
            },
            _ => {
                return None;
            },
        }
        i = i + 1;
    }
    assert(entries@.take(n as int) =~= entries@);
    Some(paths)
}

/// The named schemas, in order; `None` where one cannot be read.
fn infer_refs(entries: &Vec<(YamlNode, YamlNode)>) -> (res: Option<Result<Vec<SchemaRef>, InferError>>)
    ensures
        match (res, spec_ref_defs(entries@)) {
            (Some(Ok(refs)), Some(Ok(m))) => spec_schema_refs_view(refs@) == m,
            (Some(Err(e)), Some(Err(f))) => e@ == f,
            (None, None) => true,
            _ => false,
        },
{
    let mut refs: Vec<SchemaRef> = Vec::new();
    let n = entries.len();
    let mut i: usize = 0;
    assert(entries@.take(0) =~= Seq::<(YamlNode, YamlNode)>::empty());
    assert(spec_schema_refs_view(refs@) =~= Seq::<SchemaRefModel>::empty());
    while i < n
        invariant
            n == entries@.len(),
            0 <= i <= n,
            spec_ref_defs(entries@.take(i as int)) matches Some(Ok(acc))
                && spec_schema_refs_view(refs@) == acc,
        decreases n - i,
    {
        proof {
            lemma_ref_defs_prefix(entries@, i as int + 1);
            assert(entries@.take(i + 1).drop_last() =~= entries@.take(i as int));
            assert(entries@.take(i + 1).last() == entries@[i as int]);
        }
        let name = match entries[i].0.as_str() {
            Some(name) => name,
            None => {
                return None;
            },
        };
        let ghost before = refs@;
        match infer_ref(name, &entries[i].1) {
            Some(Ok(r)) => {
                refs.push(r);
                assert(spec_schema_refs_view(refs@) =~= spec_schema_refs_view(before).push(
                    refs@.last()@,
                ));
            },
            Some(Err(e)) => {
                proof {
                    assert(spec_ref_defs(entries@.take(i + 1)) matches Some(Err(f)) && e@ == f);
                }
                return Some(Err(e));
            },
            None => {
                return None;
            },
        }
        i = i + 1;
    }
    assert(entries@.take(n as int) =~= entries@);
    Some(Ok(refs))
}

/// The client of a version 3 schema: its server URL, named schemas and
/// paths. `None` unless its paths, server URL and named schemas can be
/// read, and every path inferred.
pub fn try_infer_v3(schema: &YamlNode) -> (res: Option<Result<Api, InferError>>)
    ensures
        match (res, spec_api(*schema)) {
            (Some(Ok(api)), Some(Ok(m))) => api@ == m,
            (Some(Err(e)), Some(Err(f))) => e@ == f,
            (None, None) => true,
            _ => false,
        },
{
    let paths = match schema.get("paths") {
        Some(YamlNode::Hash(entries)) => match infer_paths(entries) {
            Some(paths) => paths,
            None => {
                return None;
            },
        },
        _ => {
            return None;
        },
    };
    let api_url = match schema.get("servers") {
        Some(servers) => match servers.item(0) {
            Some(server) => server.str_at("url"),
            None => None,
        },
        None => None,
    };
    let api_url = match api_url {
        Some(url) => string_of(url),
        None => {
            return None;
        },
    };
    let ref_entries = match schema.get("components") {
        Some(c) => match c.get("schemas") {
            Some(YamlNode::Hash(entries)) => entries,
            _ => {
                return None;
            },
        },
        None => {
            return None;
        },
    };
    match infer_refs(ref_entries) {
        Some(Ok(schema_refs)) => Some(Ok(Api { api_url, schema_refs, paths })),
        Some(Err(e)) => Some(Err(e)),
        None => None,
    }
}

/// The client of a schema, by its `openapi` version; `None` where the
/// schema cannot be read.
pub fn try_infer_schema(schema: &YamlNode) -> (res: Option<Result<Api, InferError>>)
    ensures
        match (res, spec_infer_schema(*schema)) {
            (Some(Ok(api)), Some(Ok(m))) => api@ == m,
            (Some(Err(e)), Some(Err(f))) => e@ == f,
            (None, None) => true,
            _ => false,
        },
{
    match schema.str_at("openapi") {
        None => Some(Err(InferError::UnspecifiedVersion)),
        Some(version) => if str_eq(version, "3.0.0") {
            try_infer_v3(schema)
        } else {
            Some(Err(InferError::UnsupportedVersion(string_of(version))))
        },
    }
}

/// The client of a schema: only version `3.0.0` of OpenAPI is supported.
pub fn infer_schema(schema: &YamlNode) -> (res: Result<Api, InferError>)
    requires
        spec_infer_schema(*schema) is Some,
    ensures
        match (res, spec_infer_schema(*schema)) {
            (Ok(api), Some(Ok(m))) => api@ == m,
            (Err(e), Some(Err(f))) => e@ == f,
            _ => false,
        },
{
    match try_infer_schema(schema) {
        Some(res) => res,
        None => {
            proof {
                assert(false);
            }
            Err(InferError::UnspecifiedVersion)
        },
    }
}

/// The client of a version 3 schema: its server URL, named schemas and
/// paths.
pub fn infer_v3(schema: &YamlNode) -> (res: Result<Api, InferError>)
    requires
        spec_api(*schema) is Some,
    ensures
        match (res, spec_api(*schema)) {
            (Ok(x), Some(Ok(m))) => x@ == m,
            (Err(e), Some(Err(f))) => e@ == f,
            _ => false,
        },
{
    match try_infer_v3(schema) {
        Some(res) => res,
        None => {
            proof {
                assert(false);
            }
            Err(InferError::MissingType)
        },
    }
}

proof fn lemma_paths_follow_keys(entries: Seq<(YamlNode, YamlNode)>)
    ensures
        spec_paths(entries) matches Some(ps) ==> {
            &&& ps.len() == entries.len()
            &&& forall|i: int|
                0 <= i < entries.len() ==> (#[trigger] entries[i]).0.spec_as_str() == Some(ps[i].path)
        },
    decreases entries.len(),
{
    if entries.len() > 0 {
        lemma_paths_follow_keys(entries.drop_last());
        if let Some(ps) = spec_paths(entries) {
            let prev = spec_paths(entries.drop_last()).unwrap();
            assert forall|i: int| 0 <= i < entries.len() implies (#[trigger] entries[i]).0.spec_as_str()
                == Some(ps[i].path) by {
                if i < entries.len() - 1 {
                    assert(ps[i] == prev[i]);
                    assert(entries.drop_last()[i] == entries[i]);
                }
            }
        }
    }
}

proof fn lemma_refs_follow_keys(entries: Seq<(YamlNode, YamlNode)>)
    ensures
        spec_ref_defs(entries) matches Some(Ok(rs)) ==> {
            &&& rs.len() == entries.len()
            &&& forall|i: int|
                0 <= i < entries.len() ==> (#[trigger] entries[i]).0.spec_as_str() == Some(rs[i].name)
        },
    decreases entries.len(),
{
    if entries.len() > 0 {
        lemma_refs_follow_keys(entries.drop_last());
        if let Some(Ok(rs)) = spec_ref_defs(entries) {
            let prev = spec_ref_defs(entries.drop_last()).unwrap()->Ok_0;
            assert forall|i: int| 0 <= i < entries.len() implies (#[trigger] entries[i]).0.spec_as_str()
                == Some(rs[i].name) by {
                if i < entries.len() - 1 {
                    assert(rs[i] == prev[i]);
                    assert(entries.drop_last()[i] == entries[i]);
                }
            }
        }
    }
}

/// Only version `3.0.0` is read: a schema without an `openapi` version is
/// refused as unspecified, one with another version as unsupported, naming
/// it.
pub proof fn lemma_schema_version(schema: YamlNode)
    ensures
        schema.spec_str_at("openapi"@) is None ==> spec_infer_schema(schema) == Some(
            Err::<ApiModel, InferErrorModel>(InferErrorModel::UnspecifiedVersion),
        ),
        schema.spec_str_at("openapi"@) matches Some(v) ==> (v != "3.0.0"@ ==> spec_infer_schema(schema)
            == Some(Err::<ApiModel, InferErrorModel>(InferErrorModel::UnsupportedVersion(v)))),
        schema.spec_str_at("openapi"@) == Some("3.0.0"@) ==> spec_infer_schema(schema) == spec_api(schema),
{
}

/// A named schema's struct has one field per property, in order, named by
/// the property; a field is required exactly when its own schema says
/// `required: true` or the object's `required` list names it.
pub proof fn lemma_ref_fields_per_property(entries: Seq<(YamlNode, YamlNode)>, required: Seq<YamlNode>, base: nat)
    ensures
        spec_ref_fields(entries, required, base) matches Some(acc) ==> {
            &&& acc.fields.len() == entries.len()
            &&& forall|i: int| 0 <= i < entries.len() ==> {
                &&& entries[i].0.spec_as_str() == Some((#[trigger] acc.fields[i]).name)
                &&& acc.fields[i].required == ((entries[i].1.spec_get("required"@) matches Some(r)
                    && r.spec_as_bool() == Some(true)) || exists|j: int|
                    0 <= j < required.len() && (#[trigger] required[j]).spec_as_str() == Some(
                        acc.fields[i].name,
                    ))
            }
        },
    decreases entries.len(),
{
    if entries.len() > 0 {
        let init = entries.drop_last();
        lemma_ref_fields_per_property(init, required, base);
        if let Some(acc) = spec_ref_fields(entries, required, base) {
            let prev = spec_ref_fields(init, required, base).unwrap();
            assert forall|i: int| 0 <= i < entries.len() implies {
                &&& entries[i].0.spec_as_str() == Some((#[trigger] acc.fields[i]).name)
                &&& acc.fields[i].required == ((entries[i].1.spec_get("required"@) matches Some(r)
                    && r.spec_as_bool() == Some(true)) || exists|j: int|
                    0 <= j < required.len() && (#[trigger] required[j]).spec_as_str() == Some(
                        acc.fields[i].name,
                    ))
            } by {
                if i < init.len() {
                    assert(acc.fields[i] == prev.fields[i]);
                    assert(entries[i] == init[i]);
                }
            }
        }
    }
}

/// The client's URL is the `url` of the first server; it has one module
/// for each path of `paths` and one type for each named schema of
/// `#/components/schemas`, each in the schema's order and under the name
/// the schema gives it.
pub proof fn lemma_api_parts(schema: YamlNode)
    ensures
        spec_api(schema) matches Some(Ok(m)) ==> {
            &&& schema.spec_get("servers"@) matches Some(servers) && servers.spec_item(0) matches Some(
                first,
            ) && first.spec_str_at("url"@) == Some(m.api_url)
            &&& schema.spec_get("paths"@) matches Some(YamlNode::Hash(pe)) && m.paths.len()
                == pe@.len() && forall|i: int|
                0 <= i < pe@.len() ==> (#[trigger] pe@[i]).0.spec_as_str() == Some(m.paths[i].path)
            &&& schema.spec_get("components"@) matches Some(c) && c.spec_get("schemas"@) matches Some(
                YamlNode::Hash(re),
            ) && m.schema_refs.len() == re@.len() && forall|i: int|
                0 <= i < re@.len() ==> (#[trigger] re@[i]).0.spec_as_str() == Some(
                    m.schema_refs[i].name,
                )
        },
{
    if let Some(YamlNode::Hash(pe)) = schema.spec_get("paths"@) {
        lemma_paths_follow_keys(pe@);
    }
    if let Some(re) = spec_components(schema) {
        lemma_refs_follow_keys(re);
    }
}

} // verus!
