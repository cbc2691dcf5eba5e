//! HTTP methods: which ones an operation may use, and the Rust names that an
//! operation's function and module get.
use vstd::prelude::*;

use crate::naming::spec_to_snake_case;
use crate::naming::spec_to_uppercase;
use crate::naming::to_snake_case;
use crate::naming::to_uppercase;
use crate::text::str_eq;
use crate::text::string_of;
use crate::yaml::YamlNode;
use super::body::try_infer_v3 as infer_body;
use super::body::spec_index;
use super::body::spec_request_body;
use super::datatype::InferredModel;
use super::datatype::InferredType;
use super::location::any_kept;
use super::location::spec_select;
use super::params::PathParams;
use super::params::PathParamsModel;
use super::params::path_params_from;
use super::params::spec_path_params;
use super::query::QueryField;
use super::query::QueryFieldModel;
use super::query::query_fields_from;
use super::query::spec_query_fields;
use super::query::spec_query_fields_view;
use super::response::Responses;
use super::response::ResponsesModel;
use super::response::try_infer_v3 as infer_responses;
use super::response::spec_infer_responses;
use super::security::Requirement;
use super::security::RequirementModel;
use super::security::try_infer_v3 as infer_security;
use super::security::spec_requirements;
use super::security::spec_requirements_view;
use super::types::InferError;
use super::types::InferErrorModel;

verus! {

/// An HTTP method that an operation may use, in any letter case.
pub open spec fn spec_valid(method: Seq<char>) -> bool {
    let upper = spec_to_uppercase(method);
    ||| upper == "DELETE"@
    ||| upper == "GET"@
    ||| upper == "HEAD"@
    ||| upper == "PATCH"@
    ||| upper == "POST"@
    ||| upper == "PUT"@
}

/// Whether `method`, upper-cased, is one of DELETE, GET, HEAD, PATCH, POST
/// and PUT.
pub fn valid(method: &str) -> (b: bool)
    ensures
        b == spec_valid(method@),
{
    let upper = to_uppercase(method);
    let u = upper.as_str();
    str_eq(u, "DELETE") || str_eq(u, "GET") || str_eq(u, "HEAD") || str_eq(u, "PATCH") || str_eq(
        u,
        "POST",
    ) || str_eq(u, "PUT")
}

/// The name of the function that performs an operation.
pub(crate) fn fn_ident(method: &str) -> (ident: String)
    requires
        spec_valid(method@),
    ensures
        ident@ == spec_to_snake_case(method@),
{
    to_snake_case(method)
}

/// The name of the module that holds an operation's types.
pub(crate) fn mod_ident(method: &str) -> (ident: String)
    requires
        spec_valid(method@),
    ensures
        ident@ == spec_to_snake_case(method@),
{
    to_snake_case(method)
}

/// What an operation of a path needs: its function and module names, the
/// parameters it takes, its request body, its security requirements and
/// the responses it documents.
#[derive(Debug)]
pub struct Operation {
    /// The method as the schema writes it.
    pub method: String,
    pub fn_ident: String,
    pub mod_ident: String,
    /// The fields of the query parameters, when there are any.
    pub query: Option<Vec<QueryField>>,
    /// The path parameters, when there are any.
    pub path: Option<PathParams>,
    /// The request body's type, when there is a request body.
    pub body: Option<InferredType>,
    /// The security requirements, when there is a `security` list.
    pub security: Option<Vec<Requirement>>,
    pub responses: Responses,
}

pub struct OperationModel {
    pub method: Seq<char>,
    pub fn_ident: Seq<char>,
    pub mod_ident: Seq<char>,
    pub query: Option<Seq<QueryFieldModel>>,
    pub path: Option<PathParamsModel>,
    pub body: Option<InferredModel>,
    pub security: Option<Seq<RequirementModel>>,
    pub responses: ResponsesModel,
}

impl View for Operation {
    type V = OperationModel;

    open spec fn view(&self) -> OperationModel {
        OperationModel {
            method: self.method@,
            fn_ident: self.fn_ident@,
            mod_ident: self.mod_ident@,
            query: match self.query {
                Some(q) => Some(spec_query_fields_view(q@)),
                None => None,
            },
            path: match self.path {
                Some(p) => Some(p@),
                None => None,
            },
            body: match self.body {
                Some(b) => Some(b@),
                None => None,
            },
            security: match self.security {
                Some(s) => Some(spec_requirements_view(s@)),
                None => None,
            },
            responses: self.responses@,
        }
    }
}

/// An operation's parameters: its `parameters` list, or none when that is
/// not a list.
pub open spec fn spec_params_of(schema: YamlNode) -> Seq<YamlNode> {
    match schema.spec_get("parameters"@) {
        Some(YamlNode::Array(items)) => items@,
        _ => Seq::empty(),
    }
}

/// The query fields of an operation, when it has query parameters.
pub open spec fn spec_query_stage(params: Seq<YamlNode>) -> Option<
    Result<Option<Seq<QueryFieldModel>>, InferErrorModel>,
> {
    let q = spec_select(params, Some("query"@));
    if q.len() == 0 {
        Some(Ok(None))
    } else {
        match spec_query_fields(q) {
            Some(Ok(f)) => Some(Ok(Some(f))),
            Some(Err(e)) => Some(Err(e)),
            None => None,
        }
    }
}

/// The path parameters of an operation, when it has any.
pub open spec fn spec_path_stage(method: Seq<char>, params: Seq<YamlNode>) -> Option<
    Result<Option<PathParamsModel>, InferErrorModel>,
> {
    let p = spec_select(params, Some("path"@));
    if p.len() == 0 {
        Some(Ok(None))
    } else {
        match spec_path_params(method, p) {
            Some(Ok(m)) => Some(Ok(Some(m))),
            Some(Err(e)) => Some(Err(e)),
            None => None,
        }
    }
}

/// The request body's type, when the operation has a `requestBody`.
pub open spec fn spec_body_stage(schema: YamlNode) -> Option<Result<Option<InferredModel>, InferErrorModel>> {
    let b = spec_index(schema, "requestBody"@);
    if b is BadValue {
        Some(Ok(None))
    } else {
        match spec_request_body(b) {
            Some(Ok(m)) => Some(Ok(Some(m))),
            Some(Err(e)) => Some(Err(e)),
            None => None,
        }
    }
}

/// The security requirements, when the operation has a `security` list;
/// `None` when that list is malformed.
pub open spec fn spec_security_stage(schema: YamlNode) -> Option<Option<Seq<RequirementModel>>> {
    let s = spec_index(schema, "security"@);
    if s is BadValue {
        Some(None)
    } else {
        match spec_requirements(s) {
            Some(r) => Some(Some(r)),
            None => None,
        }
    }
}

/// The operation of `method` that `schema` describes: the query, path,
/// body, security and responses parts in that order, the first error
/// ending it. `None` for a method that is not an HTTP method, or a part
/// that cannot be read.
pub open spec fn spec_operation(method: Seq<char>, schema: YamlNode) -> Option<
    Result<OperationModel, InferErrorModel>,
> {
    if !spec_valid(method) {
        None
    } else {
        let params = spec_params_of(schema);
        match spec_query_stage(params) {
            None => None,
            Some(Err(e)) => Some(Err(e)),
            Some(Ok(query)) => match spec_path_stage(method, params) {
                None => None,
                Some(Err(e)) => Some(Err(e)),
                Some(Ok(path)) => match spec_body_stage(schema) {
                    None => None,
                    Some(Err(e)) => Some(Err(e)),
                    Some(Ok(body)) => match spec_security_stage(schema) {
                        None => None,
                        Some(security) => match spec_infer_responses(
                            spec_index(schema, "responses"@),
                            0,
                        ) {
                            None => None,
                            Some(Err(e)) => Some(Err(e)),
                            Some(Ok(responses)) => Some(
                                Ok(
                                    OperationModel {
                                        method,
                                        fn_ident: spec_to_snake_case(method),
                                        mod_ident: spec_to_snake_case(method),
                                        query,
                                        path,
                                        body,
                                        security,
                                        responses,
                                    },
                                ),
                            ),
                        },
                    },
                },
            },
        }
    }
}

/// An operation is read only for an HTTP method. Once read, it keeps its
/// method, named in snake case; it has query fields exactly when some
/// parameter is in the query, path parameters exactly when some parameter
/// is in the path, a body exactly when it documents a `requestBody`, and
/// security requirements exactly when it has a `security` list, those of
/// that list; its responses are those of its `responses` map, their
/// structs numbered from zero.
pub proof fn lemma_operation_parts(method: Seq<char>, schema: YamlNode)
    ensures
        !spec_valid(method) ==> spec_operation(method, schema) is None,
        spec_operation(method, schema) matches Some(Ok(op)) ==> {
            &&& spec_valid(method)
            &&& op.method == method
            &&& op.fn_ident == spec_to_snake_case(method)
            &&& (op.query is None <==> spec_select(spec_params_of(schema), Some("query"@)).len() == 0)
            &&& (op.path is None <==> spec_select(spec_params_of(schema), Some("path"@)).len() == 0)
            &&& (op.body is None <==> spec_index(schema, "requestBody"@) is BadValue)
            &&& (op.body matches Some(b) ==> spec_request_body(spec_index(schema, "requestBody"@)) == Some(
                Ok::<InferredModel, InferErrorModel>(b),
            ))
            &&& (op.security is None <==> spec_index(schema, "security"@) is BadValue)
            &&& (op.security matches Some(rs) ==> spec_requirements(spec_index(schema, "security"@)) == Some(rs))
            &&& spec_infer_responses(spec_index(schema, "responses"@), 0) == Some(
                Ok::<ResponsesModel, InferErrorModel>(op.responses),
            )
        },
{
}

/// The operation of `method` on a path, as `schema` describes it; `None`
/// for a method that is not an HTTP method, or a part that cannot be read.
pub fn try_infer_v3(method: &str, schema: &YamlNode) -> (res: Option<Result<Operation, InferError>>)
    ensures
        match (res, spec_operation(method@, *schema)) {
            (Some(Ok(op)), Some(Ok(m))) => op@ == m,
            (Some(Err(e)), Some(Err(f))) => e@ == f,
            (None, None) => true,
            _ => false,
        },
{
    if !valid(method) {
        return None;
    }
    let method_fn = fn_ident(method);
    let method_mod = mod_ident(method);
    let none: Vec<YamlNode> = Vec::new();
    let params: &Vec<YamlNode> = match schema.get("parameters") {
        Some(YamlNode::Array(items)) => items,
        _ => &none,
    };
    assert(params@ == spec_params_of(*schema));
    let query = if any_kept(params, Some("query")) {
        match query_fields_from(params, Some("query")) {
            Some(Ok(f)) => Some(f),
            Some(Err(e)) => {
                return Some(Err(e));
            },
            None => {
                return None;
            },
        }
    } else {
        None
    };
    let path = if any_kept(params, Some("path")) {
        match path_params_from(method, params, Some("path")) {
            Some(Ok(p)) => Some(p),
            Some(Err(e)) => {
                return Some(Err(e));
            },
            None => {
                return None;
            },
        }
    } else {
        None
    };
    let body = match schema.get("requestBody") {
        None => None,
        Some(YamlNode::BadValue) => None,
        Some(b) => match infer_body(b) {
            Some(Ok(t)) => Some(t),
            Some(Err(e)) => {
                return Some(Err(e));
            },
            None => {
                return None;
            },
        },
    };
    let security = match schema.get("security") {
        None => None,
        Some(YamlNode::BadValue) => None,
        Some(s) => match infer_security(s) {
            Some(r) => Some(r),
            None => {
                return None;
            },
        },
    };
    let responses = match schema.get("responses") {
        Some(r) => infer_responses(r),
        None => infer_responses(&YamlNode::BadValue),
    };
    match responses {
        Some(Ok(responses)) => Some(
            Ok(
                Operation {
                    method: string_of(method),
                    fn_ident: method_fn,
                    mod_ident: method_mod,
                    query,
                    path,
                    body,
                    security,
                    responses,
                },
            ),
        ),
        Some(Err(e)) => Some(Err(e)),
        None => None,
    }
}

/// The operation of `method` on a path, as `schema` describes it.
pub fn infer_v3(method: &str, schema: &YamlNode) -> (res: Result<Operation, InferError>)
    requires
        spec_operation(method@, *schema) is Some,
    ensures
        match (res, spec_operation(method@, *schema)) {
            (Ok(x), Some(Ok(m))) => x@ == m,
            (Err(e), Some(Err(f))) => e@ == f,
            _ => false,
        },
{
    match try_infer_v3(method, schema) {
        Some(res) => res,
        None => {
            proof {
                assert(false);
            }
            Err(InferError::MissingType)
        },
    }
}

} // verus!
