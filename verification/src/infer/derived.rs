//! The names that the derived `Schema` implementation gives to an API's
//! paths, methods and responses.
use vstd::prelude::*;

use crate::naming::remove_char;
use crate::naming::replace_char;
use crate::naming::spec_remove_char;
use crate::naming::spec_replace_char;
use crate::naming::spec_to_class_case;
use crate::naming::spec_to_lowercase;
use crate::naming::spec_to_snake_case;
use crate::naming::spec_trim;
use crate::naming::to_class_case;
use crate::naming::to_lowercase;
use crate::naming::to_snake_case;
use crate::naming::trim;
use crate::text::i64_to_decimal;
use crate::text::push_str;
use crate::text::spec_int_decimal;
use crate::text::string_of;
use crate::yaml::YamlNode;
use super::method::spec_valid;
use super::location::spec_select;
use super::parameter::ParamField;
use super::parameter::ParamFieldModel;
use super::parameter::param_fields_from;
use super::parameter::spec_param_fields;
use super::parameter::spec_param_fields_view;
use super::datatype::infer_into;
use super::datatype::lemma_infer_ordered;
use super::datatype::lemma_infer_refs_from;
use super::datatype::spec_infer;
use super::datatype::spec_refs_below;
use super::datatype::spec_refs_from;
use super::response::json_schema;
use super::response::spec_json_schema;
use super::body::spec_index;
use super::query::QueryField;
use super::query::QueryFieldModel;
use super::query::spec_param_required;
use super::query::spec_query_fields_view;
use super::types::InferError;
use super::types::RustType;
use super::types::StructDef;
use super::types::StructModel;
use super::types::TypeModel;
use super::types::spec_structs_view;
use super::types::InferErrorModel;
use crate::text::str_eq;

verus! {

/// The status given to a response key that is not a number.
pub const UNKNOWN_ERR_CODE: u16 = 520;

/// The module name of a path: its segments joined by `_`, in snake case.
pub fn mod_ident(path: &str) -> (ident: String)
    ensures
        ident@ == spec_to_snake_case(spec_trim(spec_replace_char(path@, '/', ' '))),
{
    let spaced = replace_char(path, '/', ' ');
    let trimmed = trim(spaced.as_str());
    to_snake_case(trimmed.as_str())
}

/// The name of the struct that stands for a path of the API `api_st`.
pub fn path_struct_ident(api_st: &str, path: &str) -> (ident: String)
    ensures
        ident@ == api_st@ + spec_to_class_case(spec_replace_char(path@, '/', ' ')),
{
    let spaced = replace_char(path, '/', ' ');
    let class = to_class_case(spaced.as_str());
    let mut ident = string_of(api_st);
    push_str(&mut ident, class.as_str());
    ident
}

/// The name of the function that gives a path's struct: the path without
/// its `/`, in lower case.
pub fn path_fn_ident(path: &str) -> (ident: String)
    ensures
        ident@ == spec_to_lowercase(spec_remove_char(path@, '/')),
{
    let bare = remove_char(path, '/');
    to_lowercase(bare.as_str())
}

/// The name of the function that performs an operation: the method in lower
/// case.
pub(crate) fn fn_ident(method: &str) -> (ident: String)
    requires
        spec_valid(method@),
    ensures
        ident@ == spec_to_lowercase(method@),
{
    to_lowercase(method)
}

/// The name of the struct of an operation's query parameters.
pub(crate) fn query_param_struct_ident(method: &str) -> (ident: String)
    requires
        spec_valid(method@),
    ensures
        ident@ == spec_to_class_case(method@) + "QueryParams"@,
{
    let mut ident = to_class_case(method);
    push_str(&mut ident, "QueryParams");
    ident
}

/// A response key's status and variant name: a number names itself,
/// anything else stands for the unknown-error status.
pub open spec fn spec_parse_response_key(key: YamlNode) -> (u16, Seq<char>) {
    match key.spec_as_i64() {
        Some(code) => (code as u16, "Status"@ + spec_int_decimal(code as int)),
        None => (UNKNOWN_ERR_CODE, "Status"@ + spec_int_decimal(UNKNOWN_ERR_CODE as int)),
    }
}

pub fn parse_response_key(key: &YamlNode) -> (res: (u16, String))
    ensures
        res.0 == spec_parse_response_key(*key).0,
        res.1@ == spec_parse_response_key(*key).1,
{
    let (code, number) = match key.as_i64() {
        Some(code) => (code as u16, code),
        None => (UNKNOWN_ERR_CODE, UNKNOWN_ERR_CODE as i64),
    };
    let mut name = string_of("Status");
    let digits = i64_to_decimal(number);
    push_str(&mut name, digits.as_str());
    (code, name)
}

/// The struct of an operation's query parameters.
#[derive(Debug)]
pub struct QueryStruct {
    pub ident: String,
    pub fields: Vec<ParamField>,
}

pub struct QueryStructModel {
    pub ident: Seq<char>,
    pub fields: Seq<ParamFieldModel>,
}

impl View for QueryStruct {
    type V = QueryStructModel;

    open spec fn view(&self) -> QueryStructModel {
        QueryStructModel { ident: self.ident@, fields: spec_param_fields_view(self.fields@) }
    }
}

/// An operation of a derived path: its function and, when it lists
/// parameters, the struct of its query parameters.
#[derive(Debug)]
pub struct DerivedMethod {
    pub fn_ident: String,
    pub query: Option<QueryStruct>,
}

pub struct DerivedMethodModel {
    pub fn_ident: Seq<char>,
    pub query: Option<QueryStructModel>,
}

impl View for DerivedMethod {
    type V = DerivedMethodModel;

    open spec fn view(&self) -> DerivedMethodModel {
        DerivedMethodModel {
            fn_ident: self.fn_ident@,
            query: match self.query {
                Some(q) => Some(q@),
                None => None,
            },
        }
    }
}

/// The operation of `method`: `None` for a method that is not an HTTP
/// method, or a query parameter whose name or type cannot be read.
pub open spec fn spec_derived_method(method: Seq<char>, schema: YamlNode) -> Option<DerivedMethodModel> {
    if !spec_valid(method) {
        None
    } else {
        match schema.spec_get("parameters"@) {
            Some(YamlNode::Array(items)) => match spec_param_fields(
                spec_select(items@, Some("query"@)),
            ) {
                Some(Ok(fields)) => Some(
                    DerivedMethodModel {
                        fn_ident: spec_to_lowercase(method),
                        query: Some(
                            QueryStructModel {
                                ident: spec_to_class_case(method) + "QueryParams"@,
                                fields,
                            },
                        ),
                    },
                ),
                _ => None,
            },
            _ => Some(DerivedMethodModel { fn_ident: spec_to_lowercase(method), query: None }),
        }
    }
}

/// The operation of `method` that `schema` describes; `None` for a method
/// that is not an HTTP method, or a query parameter whose name or type
/// cannot be read.
pub fn try_infer_v3_method(method: &str, schema: &YamlNode) -> (m: Option<DerivedMethod>)
    ensures
        match (m, spec_derived_method(method@, *schema)) {
            (Some(d), Some(model)) => d@ == model,
            (None, None) => true,
            _ => false,
        },
{
    if !super::method::valid(method) {
        return None;
    }
    let method_fn = fn_ident(method);
    match schema.get("parameters") {
        Some(YamlNode::Array(items)) => {
            let ident = query_param_struct_ident(method);
            match param_fields_from(items, Some("query")) {
                Some(Ok(fields)) => Some(
                    DerivedMethod { fn_ident: method_fn, query: Some(QueryStruct { ident, fields }) },
                ),
                _ => None,
            }
        },
        _ => Some(DerivedMethod { fn_ident: method_fn, query: None }),
    }
}

/// The struct and function that stand for a path.
#[derive(Debug)]
pub struct DerivedPath {
    pub struct_ident: String,
    pub fn_ident: String,
}

pub struct DerivedPathModel {
    pub struct_ident: Seq<char>,
    pub fn_ident: Seq<char>,
}

impl View for DerivedPath {
    type V = DerivedPathModel;

    open spec fn view(&self) -> DerivedPathModel {
        DerivedPathModel { struct_ident: self.struct_ident@, fn_ident: self.fn_ident@ }
    }
}

pub open spec fn spec_derived_paths_view(paths: Seq<DerivedPath>) -> Seq<DerivedPathModel> {
    paths.map_values(|p: DerivedPath| p@)
}

/// The struct and function of each path of `entries`, for the API
/// `api_st`; `None` unless every path is a string.
pub open spec fn spec_derived_paths(api_st: Seq<char>, entries: Seq<(YamlNode, YamlNode)>) -> Option<
    Seq<DerivedPathModel>,
> {
    if forall|i: int| 0 <= i < entries.len() ==> (#[trigger] entries[i]).0.spec_as_str() is Some {
        Some(
            entries.map_values(
                |e: (YamlNode, YamlNode)|
                    DerivedPathModel {
                        struct_ident: api_st + spec_to_class_case(
                            spec_replace_char(e.0.spec_as_str().unwrap(), '/', ' '),
                        ),
                        fn_ident: spec_to_lowercase(spec_remove_char(e.0.spec_as_str().unwrap(), '/')),
                    },
            ),
        )
    } else {
        None
    }
}

/// The paths of a version 3 schema, for the API `api_st`: `None` unless
/// `paths` is a map keyed by strings.
pub open spec fn spec_derived_schema(api_st: Seq<char>, schema: YamlNode) -> Option<
    Seq<DerivedPathModel>,
> {
    match schema.spec_get("paths"@) {
        Some(YamlNode::Hash(entries)) => spec_derived_paths(api_st, entries@),
        _ => None,
    }
}

/// The paths of a schema, by its `openapi` version: only `3.0.0` is
/// supported.
pub open spec fn spec_derive_schema(api_st: Seq<char>, schema: YamlNode) -> Option<
    Result<Seq<DerivedPathModel>, InferErrorModel>,
> {
    match schema.spec_str_at("openapi"@) {
        None => Some(Err(InferErrorModel::UnspecifiedVersion)),
        Some(version) => if version == "3.0.0"@ {
            match spec_derived_schema(api_st, schema) {
                Some(paths) => Some(Ok(paths)),
                None => None,
            }
        } else {
            Some(Err(InferErrorModel::UnsupportedVersion(version)))
        },
    }
}

/// The struct and function that stand for `path` of the API `api_st`.
pub fn infer_v3_path(api_st: &str, path: &str) -> (p: DerivedPath)
    ensures
        p.struct_ident@ == api_st@ + spec_to_class_case(spec_replace_char(path@, '/', ' ')),
        p.fn_ident@ == spec_to_lowercase(spec_remove_char(path@, '/')),
{
    DerivedPath { struct_ident: path_struct_ident(api_st, path), fn_ident: path_fn_ident(path) }
}

/// The paths of a version 3 schema, for the API `api_st`; `None` unless
/// `paths` is a map keyed by strings.
pub fn try_infer_v3_schema(api_st: &str, schema: &YamlNode) -> (paths: Option<Vec<DerivedPath>>)
    ensures
        match (paths, spec_derived_schema(api_st@, *schema)) {
            (Some(p), Some(m)) => spec_derived_paths_view(p@) == m,
            (None, None) => true,
            _ => false,
        },
{
    let entries = match schema.get("paths") {
        Some(YamlNode::Hash(entries)) => entries,
        _ => {
            return None;
        },
    };
    let mut paths: Vec<DerivedPath> = Vec::new();
    let n = entries.len();
    let mut i: usize = 0;
    while i < n
        invariant
            n == entries@.len(),
            0 <= i <= n,
            schema.spec_get("paths"@) == Some(YamlNode::Hash(*entries)),
            forall|j: int| 0 <= j < i ==> (#[trigger] entries@[j]).0.spec_as_str() is Some,
            spec_derived_paths_view(paths@) == entries@.take(i as int).map_values(
                |e: (YamlNode, YamlNode)|
                    DerivedPathModel {
                        struct_ident: api_st@ + spec_to_class_case(
                            spec_replace_char(e.0.spec_as_str().unwrap(), '/', ' '),
                        ),
                        fn_ident: spec_to_lowercase(spec_remove_char(e.0.spec_as_str().unwrap(), '/')),
                    },
            ),
        decreases n - i,
    {
        let path = match entries[i].0.as_str() {
            Some(p) => p,
            None => {
                return None;
            },
        };
        let ghost before = paths@;
        paths.push(infer_v3_path(api_st, path));
        assert(spec_derived_paths_view(paths@) =~= spec_derived_paths_view(before).push(
            paths@.last()@,
        ));
        assert(entries@.take(i + 1) =~= entries@.take(i as int).push(entries@[i as int]));
        i = i + 1;
    }
    assert(entries@.take(n as int) =~= entries@);
    Some(paths)
}

/// The paths of a schema for the API `api_st`, by its `openapi` version;
/// `None` where the paths cannot be read.
pub fn try_infer_schema(api_st: &str, schema: &YamlNode) -> (res: Option<
    Result<Vec<DerivedPath>, InferError>,
>)
    ensures
        match (res, spec_derive_schema(api_st@, *schema)) {
            (Some(Ok(paths)), Some(Ok(m))) => spec_derived_paths_view(paths@) == m,
            (Some(Err(e)), Some(Err(f))) => e@ == f,
            (None, None) => true,
            _ => false,
        },
{
    match schema.str_at("openapi") {
        None => Some(Err(InferError::UnspecifiedVersion)),
        Some(version) => if str_eq(version, "3.0.0") {
            match try_infer_v3_schema(api_st, schema) {
                Some(paths) => Some(Ok(paths)),
                None => None,
            }
        } else {
            Some(Err(InferError::UnsupportedVersion(string_of(version))))
        },
    }
}

/// The paths of a schema for the API `api_st`: only version `3.0.0` of
/// OpenAPI is supported.
pub fn infer_schema(api_st: &str, schema: &YamlNode) -> (res: Result<Vec<DerivedPath>, InferError>)
    requires
        spec_derive_schema(api_st@, *schema) is Some,
    ensures
        match (res, spec_derive_schema(api_st@, *schema)) {
            (Ok(paths), Some(Ok(m))) => spec_derived_paths_view(paths@) == m,
            (Err(e), Some(Err(f))) => e@ == f,
            _ => false,
        },
{
    match try_infer_schema(api_st, schema) {
        Some(res) => res,
        None => {
            proof {
                assert(false);
            }
            Err(InferError::UnspecifiedVersion)
        },
    }
}

/// The module of a derived path and the operations in it.
#[derive(Debug)]
pub struct DerivedPathModule {
    pub ident: String,
    pub path: String,
    pub methods: Vec<DerivedMethod>,
}

pub struct DerivedPathModuleModel {
    pub ident: Seq<char>,
    pub path: Seq<char>,
    pub methods: Seq<DerivedMethodModel>,
}

pub open spec fn spec_derived_methods_view(m: Seq<DerivedMethod>) -> Seq<DerivedMethodModel> {
    m.map_values(|d: DerivedMethod| d@)
}

impl View for DerivedPathModule {
    type V = DerivedPathModuleModel;

    open spec fn view(&self) -> DerivedPathModuleModel {
        DerivedPathModuleModel {
            ident: self.ident@,
            path: self.path@,
            methods: spec_derived_methods_view(self.methods@),
        }
    }
}

/// The operations of the methods `entries`, in order; `None` unless every
/// method is a string and its operation can be read.
pub open spec fn spec_derived_methods(entries: Seq<(YamlNode, YamlNode)>) -> Option<Seq<DerivedMethodModel>>
    decreases entries.len(),
{
    if entries.len() == 0 {
        Some(Seq::empty())
    } else {
        match spec_derived_methods(entries.drop_last()) {
            Some(acc) => match entries.last().0.spec_as_str() {
                Some(method) => match spec_derived_method(method, entries.last().1) {
                    Some(m) => Some(acc.push(m)),
                    None => None,
                },
                None => None,
            },
            None => None,
        }
    }
}

/// The module of the path `path`: its name, and the operations of the
/// methods that `schema` maps.
pub open spec fn spec_derived_path_module(path: Seq<char>, schema: YamlNode) -> Option<
    DerivedPathModuleModel,
> {
    match schema {
        YamlNode::Hash(entries) => match spec_derived_methods(entries@) {
            Some(methods) => Some(
                DerivedPathModuleModel {
                    ident: spec_to_snake_case(spec_trim(spec_replace_char(path, '/', ' '))),
                    path,
                    methods,
                },
            ),
            None => None,
        },
        _ => None,
    }
}

proof fn lemma_derived_methods_prefix(entries: Seq<(YamlNode, YamlNode)>, k: int)
    requires
        0 <= k <= entries.len(),
    ensures
        spec_derived_methods(entries.take(k)) is None ==> spec_derived_methods(entries) is None,
    decreases entries.len() - k,
{
    if k < entries.len() {
        lemma_derived_methods_prefix(entries.drop_last(), k);
        assert(entries.drop_last().take(k) =~= entries.take(k));
    } else {
        assert(entries.take(k) =~= entries);
    }
}

/// The module of a derived path; `None` unless `schema` maps methods to
/// operations that can be read.
pub fn try_infer_v3_path_module(path: &str, schema: &YamlNode) -> (res: Option<DerivedPathModule>)
    ensures
        match (res, spec_derived_path_module(path@, *schema)) {
            (Some(p), Some(m)) => p@ == m,
            (None, None) => true,
            _ => false,
        },
{
    let entries = match schema {
        YamlNode::Hash(entries) => entries,
        _ => {
            return None;
        },
    };
    let mut methods: Vec<DerivedMethod> = Vec::new();
    let n = entries.len();
    let mut i: usize = 0;
    assert(entries@.take(0) =~= Seq::<(YamlNode, YamlNode)>::empty());
    assert(spec_derived_methods_view(methods@) =~= Seq::<DerivedMethodModel>::empty());
    while i < n
        invariant
            n == entries@.len(),
            0 <= i <= n,
            *schema == YamlNode::Hash(*entries),
            spec_derived_methods(entries@.take(i as int)) matches Some(acc)
                && spec_derived_methods_view(methods@) == acc,
        decreases n - i,
    {
        proof {
            lemma_derived_methods_prefix(entries@, i as int + 1);
            assert(entries@.take(i + 1).drop_last() =~= entries@.take(i as int));
            assert(entries@.take(i + 1).last() == entries@[i as int]);
        }
        let method = match entries[i].0.as_str() {
            Some(m) => m,
            None => {
                return None;
            },
        };
        let ghost before = methods@;
        match try_infer_v3_method(method, &entries[i].1) {
            Some(m) => {
                methods.push(m);
                assert(spec_derived_methods_view(methods@) =~= spec_derived_methods_view(
                    before,
                ).push(methods@.last()@));
            },
            None => {
                return None;
            },
        }
        i = i + 1;
    }
    assert(entries@.take(n as int) =~= entries@);
    Some(DerivedPathModule { ident: mod_ident(path), path: string_of(path), methods })
}

/// A field of a derived named schema: the property's name and type.
#[derive(Debug)]
pub struct DerivedField {
    pub name: String,
    pub ty: RustType,
}

pub struct DerivedFieldModel {
    pub name: Seq<char>,
    pub ty: TypeModel,
}

impl View for DerivedField {
    type V = DerivedFieldModel;

    open spec fn view(&self) -> DerivedFieldModel {
        DerivedFieldModel { name: self.name@, ty: self.ty@ }
    }
}

pub open spec fn spec_derived_fields_view(f: Seq<DerivedField>) -> Seq<DerivedFieldModel> {
    f.map_values(|x: DerivedField| x@)
}

/// A derived named schema: a struct of its properties.
#[derive(Debug)]
pub struct DerivedRef {
    pub name: String,
    pub fields: Vec<DerivedField>,
    pub support: Vec<StructDef>,
}

pub struct DerivedRefModel {
    pub name: Seq<char>,
    pub fields: Seq<DerivedFieldModel>,
    pub support: Seq<StructModel>,
}

impl View for DerivedRef {
    type V = DerivedRefModel;

    open spec fn view(&self) -> DerivedRefModel {
        DerivedRefModel {
            name: self.name@,
            fields: spec_derived_fields_view(self.fields@),
            support: spec_structs_view(self.support@),
        }
    }
}

pub open spec fn spec_derived_refs_view(r: Seq<DerivedRef>) -> Seq<DerivedRefModel> {
    r.map_values(|x: DerivedRef| x@)
}

pub open spec fn spec_derived_modules_view(m: Seq<DerivedPathModule>) -> Seq<DerivedPathModuleModel> {
    m.map_values(|x: DerivedPathModule| x@)
}

/// The fields gathered so far, with their supporting structs.
pub struct DerivedFieldsModel {
    pub fields: Seq<DerivedFieldModel>,
    pub support: Seq<StructModel>,
}

/// The fields of the properties `entries`, their supporting structs
/// numbered from `base`; `None` unless every name is a string and every
/// type is inferred without error.
pub open spec fn spec_derived_fields(entries: Seq<(YamlNode, YamlNode)>, base: nat) -> Option<
    DerivedFieldsModel,
>
    decreases entries.len(),
{
    if entries.len() == 0 {
        Some(DerivedFieldsModel { fields: Seq::empty(), support: Seq::empty() })
    } else {
        match spec_derived_fields(entries.drop_last(), base) {
            Some(acc) => match entries.last().0.spec_as_str() {
                Some(name) => match spec_infer(entries.last().1, base + acc.support.len()) {
                    Some(Ok(m)) => Some(
                        DerivedFieldsModel {
                            fields: acc.fields.push(DerivedFieldModel { name, ty: m.ty }),
                            support: acc.support + m.support,
                        },
                    ),
                    _ => None,
                },
                None => None,
            },
            None => None,
        }
    }
}

/// The named schema `name`: a struct of the properties that `schema` maps.
pub open spec fn spec_derived_ref(name: Seq<char>, schema: YamlNode) -> Option<DerivedRefModel> {
    match schema.spec_get("properties"@) {
        Some(YamlNode::Hash(entries)) => match spec_derived_fields(entries@, 0) {
            Some(acc) => Some(DerivedRefModel { name, fields: acc.fields, support: acc.support }),
            None => None,
        },
        _ => None,
    }
}

/// The named schemas `entries`, in order.
pub open spec fn spec_derived_refs(entries: Seq<(YamlNode, YamlNode)>) -> Option<Seq<DerivedRefModel>>
    decreases entries.len(),
{
    if entries.len() == 0 {
        Some(Seq::empty())
    } else {
        match spec_derived_refs(entries.drop_last()) {
            Some(acc) => match entries.last().0.spec_as_str() {
                Some(name) => match spec_derived_ref(name, entries.last().1) {
                    Some(r) => Some(acc.push(r)),
                    None => None,
                },
                None => None,
            },
            None => None,
        }
    }
}

/// The path modules of `entries`, in order.
pub open spec fn spec_derived_modules(entries: Seq<(YamlNode, YamlNode)>) -> Option<
    Seq<DerivedPathModuleModel>,
>
    decreases entries.len(),
{
    if entries.len() == 0 {
        Some(Seq::empty())
    } else {
        match spec_derived_modules(entries.drop_last()) {
            Some(acc) => match entries.last().0.spec_as_str() {
                Some(path) => match spec_derived_path_module(path, entries.last().1) {
                    Some(p) => Some(acc.push(p)),
                    None => None,
                },
                None => None,
            },
            None => None,
        }
    }
}

/// A derived API: the URL of its first server, its named schemas and its
/// path modules.
#[derive(Debug)]
pub struct DerivedApi {
    pub api_url: String,
    pub refs: Vec<DerivedRef>,
    pub paths: Vec<DerivedPathModule>,
}

pub struct DerivedApiModel {
    pub api_url: Seq<char>,
    pub refs: Seq<DerivedRefModel>,
    pub paths: Seq<DerivedPathModuleModel>,
}

impl View for DerivedApi {
    type V = DerivedApiModel;

    open spec fn view(&self) -> DerivedApiModel {
        DerivedApiModel {
            api_url: self.api_url@,
            refs: spec_derived_refs_view(self.refs@),
            paths: spec_derived_modules_view(self.paths@),
        }
    }
}

/// The derived API of a version 3 schema; `None` unless its paths, server
/// URL and named schemas can all be read.
pub open spec fn spec_derived_api(schema: YamlNode) -> Option<DerivedApiModel> {
    match schema.spec_get("paths"@) {
        Some(YamlNode::Hash(path_entries)) => match spec_derived_modules(path_entries@) {
            Some(paths) => match super::schema::spec_api_url(schema) {
                Some(api_url) => match super::schema::spec_components(schema) {
                    Some(ref_entries) => match spec_derived_refs(ref_entries) {
                        Some(refs) => Some(DerivedApiModel { api_url, refs, paths }),
                        None => None,
                    },
                    None => None,
                },
                None => None,
            },
            None => None,
        },
        _ => None,
    }
}

proof fn lemma_derived_fields_prefix(entries: Seq<(YamlNode, YamlNode)>, k: int)
    requires
        0 <= k <= entries.len(),
    ensures
        spec_derived_fields(entries.take(k), 0) is None ==> spec_derived_fields(entries, 0) is None,
    decreases entries.len() - k,
{
    if k < entries.len() {
        lemma_derived_fields_prefix(entries.drop_last(), k);
        assert(entries.drop_last().take(k) =~= entries.take(k));
    } else {
        assert(entries.take(k) =~= entries);
    }
}

/// The named schema `name` that `schema` describes; `None` where it cannot
/// be read.
pub fn try_infer_ref(name: &str, schema: &YamlNode) -> (res: Option<DerivedRef>)
    ensures
        match (res, spec_derived_ref(name@, *schema)) {
            (Some(r), Some(m)) => r@ == m,
            (None, None) => true,
            _ => false,
        },
{
    let entries = match schema.get("properties") {
        Some(YamlNode::Hash(entries)) => entries,
        _ => {
            return None;
        },
    };
    let mut fields: Vec<DerivedField> = Vec::new();
    let mut support: Vec<StructDef> = Vec::new();
    let n = entries.len();
    let mut i: usize = 0;
    assert(entries@.take(0) =~= Seq::<(YamlNode, YamlNode)>::empty());
    assert(spec_derived_fields_view(fields@) =~= Seq::<DerivedFieldModel>::empty());
    assert(spec_structs_view(support@) =~= Seq::<StructModel>::empty());
    while i < n
        invariant
            n == entries@.len(),
            0 <= i <= n,
            schema.spec_get("properties"@) == Some(YamlNode::Hash(*entries)),
            spec_derived_fields(entries@.take(i as int), 0) matches Some(acc) && {
                &&& spec_derived_fields_view(fields@) == acc.fields
                &&& spec_structs_view(support@) == acc.support
            },
        decreases n - i,
    {
        proof {
            lemma_derived_fields_prefix(entries@, i as int + 1);
            assert(entries@.take(i + 1).drop_last() =~= entries@.take(i as int));
            assert(entries@.take(i + 1).last() == entries@[i as int]);
        }
        let ghost acc = spec_derived_fields(entries@.take(i as int), 0).unwrap();
        let field_name = match entries[i].0.as_str() {
            Some(f) => f,
            None => {
                return None;
            },
        };
        assert(spec_structs_view(support@).len() == support@.len());
        let ty = match infer_into(&entries[i].1, &mut support) {
            Some(Ok((ty, _))) => ty,
            _ => {
                return None;
            },
        };
        let ghost before = fields@;
        fields.push(DerivedField { name: string_of(field_name), ty });
        assert(spec_derived_fields_view(fields@) =~= spec_derived_fields_view(before).push(
            fields@.last()@,
        ));
        i = i + 1;
    }
    assert(entries@.take(n as int) =~= entries@);
    Some(DerivedRef { name: string_of(name), fields, support })
}

proof fn lemma_derived_refs_prefix(entries: Seq<(YamlNode, YamlNode)>, k: int)
    requires
        0 <= k <= entries.len(),
    ensures
        spec_derived_refs(entries.take(k)) is None ==> spec_derived_refs(entries) is None,
    decreases entries.len() - k,
{
    if k < entries.len() {
        lemma_derived_refs_prefix(entries.drop_last(), k);
        assert(entries.drop_last().take(k) =~= entries.take(k));
    } else {
        assert(entries.take(k) =~= entries);
    }
}

proof fn lemma_derived_modules_prefix(entries: Seq<(YamlNode, YamlNode)>, k: int)
    requires
        0 <= k <= entries.len(),
    ensures
        spec_derived_modules(entries.take(k)) is None ==> spec_derived_modules(entries) is None,
    decreases entries.len() - k,
{
    if k < entries.len() {
        lemma_derived_modules_prefix(entries.drop_last(), k);
        assert(entries.drop_last().take(k) =~= entries.take(k));
    } else {
        assert(entries.take(k) =~= entries);
    }
}

/// The derived named schemas, in order.
fn infer_refs(entries: &Vec<(YamlNode, YamlNode)>) -> (res: Option<Vec<DerivedRef>>)
    ensures
        match (res, spec_derived_refs(entries@)) {
            (Some(r), Some(m)) => spec_derived_refs_view(r@) == m,
            (None, None) => true,
            _ => false,
        },
{
    let mut refs: Vec<DerivedRef> = Vec::new();
    let n = entries.len();
    let mut i: usize = 0;
    assert(entries@.take(0) =~= Seq::<(YamlNode, YamlNode)>::empty());
    assert(spec_derived_refs_view(refs@) =~= Seq::<DerivedRefModel>::empty());
    while i < n
        invariant
            n == entries@.len(),
            0 <= i <= n,
            spec_derived_refs(entries@.take(i as int)) matches Some(acc)
                && spec_derived_refs_view(refs@) == acc,
        decreases n - i,
    {
        proof {
            lemma_derived_refs_prefix(entries@, i as int + 1);
            assert(entries@.take(i + 1).drop_last() =~= entries@.take(i as int));
            assert(entries@.take(i + 1).last() == entries@[i as int]);
        }
        let name = match entries[i].0.as_str() {
            Some(n) => n,
            None => {
                return None;
            },
        };
        let ghost before = refs@;
        match try_infer_ref(name, &entries[i].1) {
            Some(r) => {
                refs.push(r);
                assert(spec_derived_refs_view(refs@) =~= spec_derived_refs_view(before).push(
                    refs@.last()@,
                ));
            },
            None => {
                return None;
            },
        }
        i = i + 1;
    }
    assert(entries@.take(n as int) =~= entries@);
    Some(refs)
}

/// The derived path modules, in order.
fn infer_path_modules(entries: &Vec<(YamlNode, YamlNode)>) -> (res: Option<Vec<DerivedPathModule>>)
    ensures
        match (res, spec_derived_modules(entries@)) {
            (Some(p), Some(m)) => spec_derived_modules_view(p@) == m,
            (None, None) => true,
            _ => false,
        },
{
    let mut paths: Vec<DerivedPathModule> = Vec::new();
    let n = entries.len();
    let mut i: usize = 0;
    assert(entries@.take(0) =~= Seq::<(YamlNode, YamlNode)>::empty());
    assert(spec_derived_modules_view(paths@) =~= Seq::<DerivedPathModuleModel>::empty());
    while i < n
        invariant
            n == entries@.len(),
            0 <= i <= n,
            spec_derived_modules(entries@.take(i as int)) matches Some(acc)
                && spec_derived_modules_view(paths@) == acc,
        decreases n - i,
    {
        proof {
            lemma_derived_modules_prefix(entries@, i as int + 1);
            assert(entries@.take(i + 1).drop_last() =~= entries@.take(i as int));
            assert(entries@.take(i + 1).last() == entries@[i as int]);
        }
        let path = match entries[i].0.as_str() {
            Some(p) => p,
            None => {
                return None;
            },
        };
        let ghost before = paths@;
        match try_infer_v3_path_module(path, &entries[i].1) {
            Some(p) => {
                paths.push(p);
                assert(spec_derived_modules_view(paths@) =~= spec_derived_modules_view(before).push(
                    paths@.last()@,
                ));
            },
            None => {
                return None;
            },
        }
        i = i + 1;
    }
    assert(entries@.take(n as int) =~= entries@);
    Some(paths)
}

/// The derived API of a version 3 schema; `None` unless its paths, server
/// URL and named schemas can all be read.
pub fn try_infer_v3(schema: &YamlNode) -> (res: Option<DerivedApi>)
    ensures
        match (res, spec_derived_api(*schema)) {
            (Some(a), Some(m)) => a@ == m,
            (None, None) => true,
            _ => false,
        },
{
    let paths = match schema.get("paths") {
        Some(YamlNode::Hash(entries)) => match infer_path_modules(entries) {
            Some(p) => p,
            None => {
                return None;
            },
        },
        _ => {
            return None;
        },
    };
    let api_url = match schema.get("servers") {
        Some(servers) => match servers.item(0) {
            Some(server) => server.str_at("url"),
            None => None,
        },
        None => None,
    };
    let api_url = match api_url {
        Some(url) => string_of(url),
        None => {
            return None;
        },
    };
    let ref_entries = match schema.get("components") {
        Some(c) => match c.get("schemas") {
            Some(YamlNode::Hash(entries)) => entries,
            _ => {
                return None;
            },
        },
        None => {
            return None;
        },
    };
    match infer_refs(ref_entries) {
        Some(refs) => Some(DerivedApi { api_url, refs, paths }),
        None => None,
    }
}

/// A response variant of a derived API: its status, its name, its body
/// type, and whether that type borrows from the response.
#[derive(Debug)]
pub struct DerivedVariant {
    pub code: u16,
    pub name: String,
    pub ty: RustType,
    pub borrows: bool,
}

pub struct DerivedVariantModel {
    pub code: u16,
    pub name: Seq<char>,
    pub ty: TypeModel,
    pub borrows: bool,
}

impl View for DerivedVariant {
    type V = DerivedVariantModel;

    open spec fn view(&self) -> DerivedVariantModel {
        DerivedVariantModel { code: self.code, name: self.name@, ty: self.ty@, borrows: self.borrows }
    }
}

pub open spec fn spec_derived_variants_view(v: Seq<DerivedVariant>) -> Seq<DerivedVariantModel> {
    v.map_values(|x: DerivedVariant| x@)
}

/// The responses of a derived operation: successes below 400, errors from
/// 400 on, whether each enum needs a lifetime, and the supporting structs.
#[derive(Debug)]
pub struct DerivedResponses {
    pub success: Vec<DerivedVariant>,
    pub error: Vec<DerivedVariant>,
    pub success_lifetime: bool,
    pub error_lifetime: bool,
    pub support: Vec<StructDef>,
}

pub struct DerivedResponsesModel {
    pub success: Seq<DerivedVariantModel>,
    pub error: Seq<DerivedVariantModel>,
    pub success_lifetime: bool,
    pub error_lifetime: bool,
    pub support: Seq<StructModel>,
}

impl View for DerivedResponses {
    type V = DerivedResponsesModel;

    open spec fn view(&self) -> DerivedResponsesModel {
        DerivedResponsesModel {
            success: spec_derived_variants_view(self.success@),
            error: spec_derived_variants_view(self.error@),
            success_lifetime: self.success_lifetime,
            error_lifetime: self.error_lifetime,
            support: spec_structs_view(self.support@),
        }
    }
}

/// The body type of a response, whether it borrows, and the structs it
/// needs numbered from `base`: `()` when there is no JSON object schema.
pub open spec fn spec_derived_body(response: YamlNode, base: nat) -> Option<
    Result<(TypeModel, bool, Seq<StructModel>), InferErrorModel>,
> {
    match spec_json_schema(response) {
        Some(schema) => if schema.spec_is_hash() {
            match spec_infer(schema, base) {
                Some(Ok(m)) => Some(Ok((m.ty, m.has_lifetime, m.support))),
                Some(Err(e)) => Some(Err(e)),
                None => None,
            }
        } else {
            Some(Ok((TypeModel::Unit, false, Seq::empty())))
        },
        None => Some(Ok((TypeModel::Unit, false, Seq::empty()))),
    }
}

pub open spec fn spec_no_derived_responses() -> DerivedResponsesModel {
    DerivedResponsesModel {
        success: Seq::empty(),
        error: Seq::empty(),
        success_lifetime: false,
        error_lifetime: false,
        support: Seq::empty(),
    }
}

/// The responses of the entries of a `responses` map, in order.
pub open spec fn spec_derived_entries(entries: Seq<(YamlNode, YamlNode)>, base: nat) -> Option<
    Result<DerivedResponsesModel, InferErrorModel>,
>
    decreases entries.len(),
{
    if entries.len() == 0 {
        Some(Ok(spec_no_derived_responses()))
    } else {
        match spec_derived_entries(entries.drop_last(), base) {
            Some(Ok(acc)) => {
                let (code, name) = spec_parse_response_key(entries.last().0);
                match spec_derived_body(entries.last().1, base + acc.support.len()) {
                    Some(Ok((ty, lt, support))) => {
                        let variant = DerivedVariantModel { code, name, ty, borrows: lt };
                        Some(
                            Ok(
                                DerivedResponsesModel {
                                    success: if code < 400 {
                                        acc.success.push(variant)
                                    } else {
                                        acc.success
                                    },
                                    error: if code < 400 {
                                        acc.error
                                    } else {
                                        acc.error.push(variant)
                                    },
                                    success_lifetime: acc.success_lifetime || (code < 400 && lt),
                                    error_lifetime: acc.error_lifetime || (code >= 400 && lt),
                                    support: acc.support + support,
                                },
                            ),
                        )
                    },
                    Some(Err(e)) => Some(Err(e)),
                    None => None,
                }
            },
            other => other,
        }
    }
}

/// The responses of a derived operation: `None` unless `responses` is a
/// map whose schemas can be read.
pub open spec fn spec_derived_responses(responses: YamlNode) -> Option<
    Result<DerivedResponsesModel, InferErrorModel>,
> {
    match responses {
        YamlNode::Hash(entries) => spec_derived_entries(entries@, 0),
        _ => None,
    }
}

/// The response at position `k` becomes one variant, added after those of
/// the responses before it, among the successes exactly when its status is
/// below 400; its body type names only the supporting structs that its own
/// schema brings, numbered after the structs of the earlier responses, and
/// a response without a JSON object schema has the unit body and borrows
/// nothing.
pub proof fn lemma_derived_variant_structs(entries: Seq<(YamlNode, YamlNode)>, base: nat, k: int)
    requires
        0 <= k < entries.len(),
        spec_derived_entries(entries, base) is Some,
        spec_derived_entries(entries, base).unwrap() is Ok,
    ensures
        spec_derived_entries(entries.take(k), base) is Some,
        spec_derived_entries(entries.take(k), base).unwrap() is Ok,
        spec_derived_entries(entries.take(k + 1), base) is Some,
        spec_derived_entries(entries.take(k + 1), base).unwrap() is Ok,
        ({
            let before = spec_derived_entries(entries.take(k), base).unwrap()->Ok_0;
            let after = spec_derived_entries(entries.take(k + 1), base).unwrap()->Ok_0;
            let code = spec_parse_response_key(entries[k].0).0;
            let added = if code < 400 {
                after.success.last()
            } else {
                after.error.last()
            };
            &&& after.support.len() >= before.support.len()
            &&& after.support.take(before.support.len() as int) == before.support
            &&& code < 400 ==> after.success.drop_last() == before.success && after.error == before.error
            &&& code >= 400 ==> after.error.drop_last() == before.error && after.success == before.success
            &&& code < 400 ==> after.success.len() > 0
            &&& code >= 400 ==> after.error.len() > 0
            &&& added.code == code
            &&& added.name == spec_parse_response_key(entries[k].0).1
            &&& spec_refs_from(added.ty, base + before.support.len() as int)
            &&& spec_refs_below(added.ty, base + after.support.len() as int)
            &&& !(spec_json_schema(entries[k].1) matches Some(schema) && schema.spec_is_hash())
                ==> added.ty == TypeModel::Unit && !added.borrows && after.support == before.support
        }),
{
    lemma_derived_entries_prefix(entries, base, k);
    lemma_derived_entries_prefix(entries, base, k + 1);
    let prefix = entries.take(k + 1);
    assert(prefix.drop_last() =~= entries.take(k));
    assert(prefix.last() == entries[k]);
    let before = spec_derived_entries(entries.take(k), base).unwrap()->Ok_0;
    let after = spec_derived_entries(prefix, base).unwrap()->Ok_0;
    let at = base + before.support.len();
    match spec_json_schema(entries[k].1) {
        Some(schema) => if schema.spec_is_hash() {
            lemma_infer_refs_from(schema, at, false);
            lemma_infer_ordered(schema, at, false);
        },
        None => {},
    }
    assert(after.support.take(before.support.len() as int) =~= before.support);
    let code = spec_parse_response_key(entries[k].0).0;
    if code < 400 {
        assert(after.success.drop_last() =~= before.success);
    } else {
        assert(after.error.drop_last() =~= before.error);
    }
}

/// A derived response enum takes a lifetime exactly when one of its
/// variants borrows from the response: the error enum when some failure's
/// body borrows, the success enum when some success's body does.
pub proof fn lemma_derived_lifetimes(entries: Seq<(YamlNode, YamlNode)>, base: nat)
    ensures
        spec_derived_entries(entries, base) matches Some(Ok(m)) ==> {
            &&& m.error_lifetime <==> exists|i: int| 0 <= i < m.error.len() && (#[trigger] m.error[i]).borrows
            &&& m.success_lifetime <==> exists|i: int|
                0 <= i < m.success.len() && (#[trigger] m.success[i]).borrows
        },
    decreases entries.len(),
{
    if entries.len() > 0 {
        lemma_derived_entries_prefix(entries, base, entries.len() - 1);
        lemma_derived_lifetimes(entries.drop_last(), base);
        if let Some(Ok(m)) = spec_derived_entries(entries, base) {
            let acc = spec_derived_entries(entries.drop_last(), base).unwrap()->Ok_0;
            let code = spec_parse_response_key(entries.last().0).0;
            if code < 400 {
                assert(m.error == acc.error);
                let n = acc.success.len() as int;
                assert(m.success == acc.success.push(m.success[n]));
                if m.success_lifetime {
                    if !acc.success_lifetime {
                        assert(m.success[n].borrows);
                    } else {
                        let i = choose|i: int| 0 <= i < acc.success.len() && (#[trigger] acc.success[i]).borrows;
                        assert(m.success[i] == acc.success[i]);
                    }
                }
                if exists|i: int| 0 <= i < m.success.len() && (#[trigger] m.success[i]).borrows {
                    let i = choose|i: int| 0 <= i < m.success.len() && (#[trigger] m.success[i]).borrows;
                    if i < n {
                        assert(m.success[i] == acc.success[i]);
                    }
                }
            } else {
                assert(m.success == acc.success);
                let n = acc.error.len() as int;
                assert(m.error == acc.error.push(m.error[n]));
                if m.error_lifetime {
                    if !acc.error_lifetime {
                        assert(m.error[n].borrows);
                    } else {
                        let i = choose|i: int| 0 <= i < acc.error.len() && (#[trigger] acc.error[i]).borrows;
                        assert(m.error[i] == acc.error[i]);
                    }
                }
                if exists|i: int| 0 <= i < m.error.len() && (#[trigger] m.error[i]).borrows {
                    let i = choose|i: int| 0 <= i < m.error.len() && (#[trigger] m.error[i]).borrows;
                    if i < n {
                        assert(m.error[i] == acc.error[i]);
                    }
                }
            }
        }
    }
}

proof fn lemma_derived_entries_prefix(entries: Seq<(YamlNode, YamlNode)>, base: nat, k: int)
    requires
        0 <= k <= entries.len(),
    ensures
        spec_derived_entries(entries.take(k), base) is None ==> spec_derived_entries(entries, base)
            is None,
        spec_derived_entries(entries.take(k), base) matches Some(Err(e)) ==> spec_derived_entries(
            entries,
            base,
        ) == Some(Err::<DerivedResponsesModel, InferErrorModel>(e)),
    decreases entries.len() - k,
{
    if k < entries.len() {
        lemma_derived_entries_prefix(entries.drop_last(), base, k);
        assert(entries.drop_last().take(k) =~= entries.take(k));
    } else {
        assert(entries.take(k) =~= entries);
    }
}

/// The body type of a response, pushing the supporting structs it needs.
fn derived_body_into(response: &YamlNode, support: &mut Vec<StructDef>) -> (res: Option<
    Result<(RustType, bool), InferError>,
>)
    ensures
        match (res, spec_derived_body(*response, old(support)@.len() as nat)) {
            (Some(Ok((ty, lt))), Some(Ok((m, l, s)))) => {
                &&& ty@ == m
                &&& lt == l
                &&& spec_structs_view(final(support)@) == spec_structs_view(old(support)@) + s
            },
            (Some(Err(e)), Some(Err(f))) => e@ == f,
            (None, None) => true,
            _ => false,
        },
{
    assert(spec_structs_view(support@) =~= spec_structs_view(support@) + Seq::<
        StructModel,
    >::empty());
    match json_schema(response) {
        Some(schema) => match schema.as_hash() {
            Some(_) => infer_into(schema, support),
            None => Some(Ok((RustType::Unit, false))),
        },
        None => Some(Ok((RustType::Unit, false))),
    }
}

/// The responses of a derived operation, sorted by status.
pub fn try_infer_v3_responses(responses: &YamlNode) -> (res: Option<Result<DerivedResponses, InferError>>)
    ensures
        match (res, spec_derived_responses(*responses)) {
            (Some(Ok(r)), Some(Ok(m))) => r@ == m,
            (Some(Err(e)), Some(Err(f))) => e@ == f,
            (None, None) => true,
            _ => false,
        },
{
    let entries = match responses {
        YamlNode::Hash(entries) => entries,
        _ => {
            return None;
        },
    };
    let mut success: Vec<DerivedVariant> = Vec::new();
    let mut error: Vec<DerivedVariant> = Vec::new();
    let mut success_lifetime = false;
    let mut error_lifetime = false;
    let mut support: Vec<StructDef> = Vec::new();
    let n = entries.len();
    let mut i: usize = 0;
    assert(entries@.take(0) =~= Seq::<(YamlNode, YamlNode)>::empty());
    assert(spec_derived_variants_view(success@) =~= Seq::<DerivedVariantModel>::empty());
    assert(spec_derived_variants_view(error@) =~= Seq::<DerivedVariantModel>::empty());
    assert(spec_structs_view(support@) =~= Seq::<StructModel>::empty());
    while i < n
        invariant
            n == entries@.len(),
            0 <= i <= n,
            *responses == YamlNode::Hash(*entries),
            spec_derived_entries(entries@.take(i as int), 0) matches Some(Ok(acc)) && {
                &&& spec_derived_variants_view(success@) == acc.success
                &&& spec_derived_variants_view(error@) == acc.error
                &&& success_lifetime == acc.success_lifetime
                &&& error_lifetime == acc.error_lifetime
                &&& spec_structs_view(support@) == acc.support
            },
        decreases n - i,
    {
        proof {
            lemma_derived_entries_prefix(entries@, 0, i as int + 1);
            assert(entries@.take(i + 1).drop_last() =~= entries@.take(i as int));
            assert(entries@.take(i + 1).last() == entries@[i as int]);
        }
        let ghost acc = spec_derived_entries(entries@.take(i as int), 0).unwrap()->Ok_0;
        assert(spec_structs_view(support@).len() == support@.len());
        let (code, name) = parse_response_key(&entries[i].0);
        let ghost success_before = success@;
        let ghost error_before = error@;
        match derived_body_into(&entries[i].1, &mut support) {
            Some(Ok((ty, lt))) => {
                let variant = DerivedVariant { code, name, ty, borrows: lt };
                if code < 400 {
                    success.push(variant);
                    success_lifetime = success_lifetime || lt;
                    proof {
                        assert(spec_derived_variants_view(success@) =~= spec_derived_variants_view(
                            success_before,
                        ).push(success@.last()@));
                    }
                } else {
                    error.push(variant);
                    error_lifetime = error_lifetime || lt;
                    proof {
                        assert(spec_derived_variants_view(error@) =~= spec_derived_variants_view(
                            error_before,
                        ).push(error@.last()@));
                    }
                }
                proof {
                    let (m, l, s) = spec_derived_body(entries@[i as int].1, acc.support.len()).unwrap()->Ok_0;
                    assert(spec_structs_view(support@) =~= acc.support + s);
                }
            },
            Some(Err(e)) => {
                return Some(Err(e));
            },
            None => {
                return None;
            },
        }
        i = i + 1;
    }
    assert(entries@.take(n as int) =~= entries@);
    Some(Ok(DerivedResponses { success, error, success_lifetime, error_lifetime, support }))
}

/// The struct of a derived operation's query parameters: its fields, and
/// whether it needs a lifetime because a field borrows.
#[derive(Debug)]
pub struct DerivedQuery {
    pub fields: Vec<QueryField>,
    pub lifetime: bool,
}

pub struct DerivedQueryModel {
    pub fields: Seq<QueryFieldModel>,
    pub lifetime: bool,
}

impl View for DerivedQuery {
    type V = DerivedQueryModel;

    open spec fn view(&self) -> DerivedQueryModel {
        DerivedQueryModel { fields: spec_query_fields_view(self.fields@), lifetime: self.lifetime }
    }
}

/// The query struct of the parameters `params`, in order: each field
/// required exactly when its parameter says `required: true`. `None` where
/// a name is not a string or a schema cannot be read.
pub open spec fn spec_derived_query(params: Seq<YamlNode>) -> Option<Result<DerivedQueryModel, InferErrorModel>>
    decreases params.len(),
{
    if params.len() == 0 {
        Some(Ok(DerivedQueryModel { fields: Seq::empty(), lifetime: false }))
    } else {
        match spec_derived_query(params.drop_last()) {
            Some(Ok(acc)) => match params.last().spec_str_at("name"@) {
                None => None,
                Some(name) => match spec_infer(spec_index(params.last(), "schema"@), 0) {
                    Some(Ok(m)) => Some(
                        Ok(
                            DerivedQueryModel {
                                fields: acc.fields.push(
                                    QueryFieldModel {
                                        ident: spec_to_snake_case(name),
                                        name,
                                        ty: m.ty,
                                        required: spec_param_required(params.last()),
                                    },
                                ),
                                lifetime: acc.lifetime || m.has_lifetime,
                            },
                        ),
                    ),
                    Some(Err(e)) => Some(Err(e)),
                    None => None,
                },
            },
            other => other,
        }
    }
}

proof fn lemma_derived_query_prefix(params: Seq<YamlNode>, k: int)
    requires
        0 <= k <= params.len(),
    ensures
        spec_derived_query(params.take(k)) is None ==> spec_derived_query(params) is None,
        spec_derived_query(params.take(k)) matches Some(Err(e)) ==> spec_derived_query(params)
            == Some(Err::<DerivedQueryModel, InferErrorModel>(e)),
    decreases params.len() - k,
{
    if k < params.len() {
        lemma_derived_query_prefix(params.drop_last(), k);
        assert(params.drop_last().take(k) =~= params.take(k));
    } else {
        assert(params.take(k) =~= params);
    }
}

/// The borrowing of the type that parameter `param`'s schema gives.
pub open spec fn spec_param_borrows(param: YamlNode) -> bool {
    match spec_infer(spec_index(param, "schema"@), 0) {
        Some(Ok(m)) => m.has_lifetime,
        _ => false,
    }
}

/// A derived query struct has one field per parameter, in order: named by
/// the parameter, its identifier the name in snake case, required exactly
/// when the parameter says so; it takes a lifetime exactly when some
/// parameter's type borrows.
pub proof fn lemma_derived_query_fields(params: Seq<YamlNode>)
    ensures
        spec_derived_query(params) matches Some(Ok(q)) ==> {
            &&& q.fields.len() == params.len()
            &&& forall|i: int| 0 <= i < params.len() ==> {
                &&& params[i].spec_str_at("name"@) == Some((#[trigger] q.fields[i]).name)
                &&& q.fields[i].ident == spec_to_snake_case(q.fields[i].name)
                &&& q.fields[i].required == spec_param_required(params[i])
            }
            &&& q.lifetime <==> exists|i: int| 0 <= i < params.len() && spec_param_borrows(#[trigger] params[i])
        },
    decreases params.len(),
{
    if params.len() > 0 {
        let init = params.drop_last();
        lemma_derived_query_fields(init);
        if let Some(Ok(q)) = spec_derived_query(params) {
            let acc = spec_derived_query(init).unwrap()->Ok_0;
            let n = init.len() as int;
            assert forall|i: int| 0 <= i < params.len() implies {
                &&& params[i].spec_str_at("name"@) == Some((#[trigger] q.fields[i]).name)
                &&& q.fields[i].ident == spec_to_snake_case(q.fields[i].name)
                &&& q.fields[i].required == spec_param_required(params[i])
            } by {
                if i < n {
                    assert(q.fields[i] == acc.fields[i]);
                    assert(params[i] == init[i]);
                }
            }
            assert(spec_param_borrows(params[n]) == spec_infer(spec_index(params.last(), "schema"@), 0).unwrap()->Ok_0.has_lifetime);
            if q.lifetime {
                if !acc.lifetime {
                    assert(spec_param_borrows(params[n]));
                } else {
                    let i = choose|i: int| 0 <= i < init.len() && spec_param_borrows(#[trigger] init[i]);
                    assert(params[i] == init[i]);
                }
            }
            if exists|i: int| 0 <= i < params.len() && spec_param_borrows(#[trigger] params[i]) {
                let i = choose|i: int| 0 <= i < params.len() && spec_param_borrows(#[trigger] params[i]);
                if i < n {
                    assert(params[i] == init[i]);
                }
            }
        }
    }
}

/// The query struct of the parameters that `params` lists; `None` unless
/// it is a list whose parameters can be read.
pub fn try_infer_v3_query(params: &YamlNode) -> (res: Option<Result<DerivedQuery, InferError>>)
    ensures
        match params {
            YamlNode::Array(items) => match (res, spec_derived_query(items@)) {
                (Some(Ok(q)), Some(Ok(m))) => q@ == m,
                (Some(Err(e)), Some(Err(f))) => e@ == f,
                (None, None) => true,
                _ => false,
            },
            _ => res is None,
        },
{
    let items = match params {
        YamlNode::Array(items) => items,
        _ => {
            return None;
        },
    };
    let mut fields: Vec<QueryField> = Vec::new();
    let mut lifetime = false;
    let n = items.len();
    let mut i: usize = 0;
    assert(items@.take(0) =~= Seq::<YamlNode>::empty());
    assert(spec_query_fields_view(fields@) =~= Seq::<QueryFieldModel>::empty());
    while i < n
        invariant
            n == items@.len(),
            0 <= i <= n,
            *params == YamlNode::Array(*items),
            spec_derived_query(items@.take(i as int)) matches Some(Ok(acc)) && {
                &&& spec_query_fields_view(fields@) == acc.fields
                &&& lifetime == acc.lifetime
            },
        decreases n - i,
    {
        proof {
            lemma_derived_query_prefix(items@, i as int + 1);
            assert(items@.take(i + 1).drop_last() =~= items@.take(i as int));
            assert(items@.take(i + 1).last() == items@[i as int]);
        }
        let name = match items[i].str_at("name") {
            Some(name) => name,
            None => {
                return None;
            },
        };
        let mut discarded: Vec<StructDef> = Vec::new();
        let inferred = match items[i].get("schema") {
            Some(schema) => infer_into(schema, &mut discarded),
            None => infer_into(&YamlNode::BadValue, &mut discarded),
        };
        match inferred {
            Some(Ok((ty, lt))) => {
                let required = match items[i].get("required") {
                    Some(r) => match r.as_bool() {
                        Some(b) => b,
                        None => false,
                    },
                    None => false,
                };
                let ghost before = fields@;
                fields.push(QueryField { ident: to_snake_case(name), name: string_of(name), ty, required });
                lifetime = lifetime || lt;
                assert(spec_query_fields_view(fields@) =~= spec_query_fields_view(before).push(
                    fields@.last()@,
                ));
            },
            Some(Err(e)) => {
                return Some(Err(e));
            },
            None => {
                return None;
            },
        }
        i = i + 1;
    }
    assert(items@.take(n as int) =~= items@);
    Some(Ok(DerivedQuery { fields, lifetime }))
}

/// The operation of `method` that `schema` describes.
pub fn infer_v3_method(method: &str, schema: &YamlNode) -> (res: DerivedMethod)
    requires
        spec_derived_method(method@, *schema) is Some,
    ensures
        res@ == spec_derived_method(method@, *schema).unwrap(),
{
    match try_infer_v3_method(method, schema) {
        Some(res) => res,
        None => {
            proof {
                assert(false);
            }
            DerivedMethod { fn_ident: String::new(), query: None }
        },
    }
}

/// The paths of a version 3 schema, for the API `api_st`.
pub fn infer_v3_schema(api_st: &str, schema: &YamlNode) -> (res: Vec<DerivedPath>)
    requires
        spec_derived_schema(api_st@, *schema) is Some,
    ensures
        spec_derived_paths_view(res@) == spec_derived_schema(api_st@, *schema).unwrap(),
{
    match try_infer_v3_schema(api_st, schema) {
        Some(res) => res,
        None => {
            proof {
                assert(false);
            }
            Vec::new()
        },
    }
}

/// The module of a derived path.
pub fn infer_v3_path_module(path: &str, schema: &YamlNode) -> (res: DerivedPathModule)
    requires
        spec_derived_path_module(path@, *schema) is Some,
    ensures
        res@ == spec_derived_path_module(path@, *schema).unwrap(),
{
    match try_infer_v3_path_module(path, schema) {
        Some(res) => res,
        None => {
            proof {
                assert(false);
            }
            DerivedPathModule { ident: String::new(), path: String::new(), methods: Vec::new() }
        },
    }
}

/// The derived named schema `name` that `schema` describes.
pub fn infer_ref(name: &str, schema: &YamlNode) -> (res: DerivedRef)
    requires
        spec_derived_ref(name@, *schema) is Some,
    ensures
        res@ == spec_derived_ref(name@, *schema).unwrap(),
{
    match try_infer_ref(name, schema) {
        Some(res) => res,
        None => {
            proof {
                assert(false);
            }
            DerivedRef { name: String::new(), fields: Vec::new(), support: Vec::new() }
        },
    }
}

/// The derived API of a version 3 schema.
pub fn infer_v3(schema: &YamlNode) -> (res: DerivedApi)
    requires
        spec_derived_api(*schema) is Some,
    ensures
        res@ == spec_derived_api(*schema).unwrap(),
{
    match try_infer_v3(schema) {
        Some(res) => res,
        None => {
            proof {
                assert(false);
            }
            DerivedApi { api_url: String::new(), refs: Vec::new(), paths: Vec::new() }
        },
    }
}

/// The responses of a derived operation, sorted by status.
pub fn infer_v3_responses(responses: &YamlNode) -> (res: Result<DerivedResponses, InferError>)
    requires
        spec_derived_responses(*responses) is Some,
    ensures
        match (res, spec_derived_responses(*responses)) {
            (Ok(x), Some(Ok(m))) => x@ == m,
            (Err(e), Some(Err(f))) => e@ == f,
            _ => false,
        },
{
    match try_infer_v3_responses(responses) {
        Some(res) => res,
        None => {
            proof {
                assert(false);
            }
            Err(InferError::MissingType)
        },
    }
}

/// The query struct of the parameters that `params` lists.
pub fn infer_v3_query(params: &YamlNode) -> (res: Result<DerivedQuery, InferError>)
    requires
        params matches YamlNode::Array(items) && spec_derived_query(items@) is Some,
    ensures
        match params {
            YamlNode::Array(items) => match (res, spec_derived_query(items@)) {
                (Ok(q), Some(Ok(m))) => q@ == m,
                (Err(e), Some(Err(f))) => e@ == f,
                _ => false,
            },
            _ => false,
        },
{
    match try_infer_v3_query(params) {
        Some(res) => res,
        None => {
            proof {
                assert(false);
            }
            Err(InferError::MissingType)
        },
    }
}

} // verus!
