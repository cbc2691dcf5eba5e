//! The request body of an operation: only JSON bodies are supported, sent
//! as the type their schema gives.
use vstd::prelude::*;

use crate::yaml::YamlNode;
use super::datatype::InferredModel;
use super::datatype::InferredType;
use super::datatype::infer_into_as;
use super::datatype::lemma_scalar_types;
use super::datatype::spec_infer_as;
use super::datatype::spec_plain;
use super::types::TypeModel;
use super::types::StructDef;
use super::types::StructModel;
use super::types::spec_structs_view;
use super::types::InferError;
use super::types::InferErrorModel;

verus! {

/// The node under `key`, as indexing gives it: `BadValue` where there is
/// none.
pub open spec fn spec_index(node: YamlNode, key: Seq<char>) -> YamlNode {
    match node.spec_get(key) {
        Some(v) => v,
        None => YamlNode::BadValue,
    }
}

/// The schema of a JSON request body: `content` / `application/json` /
/// `schema`, as indexing gives it.
pub open spec fn spec_json_body_schema(body: YamlNode) -> YamlNode {
    spec_index(spec_index(spec_index(body, "content"@), "application/json"@), "schema"@)
}

/// The type of a request body: an error unless it has a JSON schema. The
/// body is sent, not borrowed from a response, so its texts are owned
/// `String`s.
pub open spec fn spec_request_body(body: YamlNode) -> Option<Result<InferredModel, InferErrorModel>> {
    let schema = spec_json_body_schema(body);
    if schema is BadValue {
        Some(Err(InferErrorModel::NonJsonBody))
    } else {
        spec_infer_as(schema, 0, true)
    }
}

/// A request body without a JSON schema is refused; one whose JSON schema
/// is a plain `string` is sent as an owned `String`, borrowing nothing, and
/// its supporting structs are numbered from zero.
pub proof fn lemma_request_body_owned(body: YamlNode)
    ensures
        spec_json_body_schema(body) is BadValue ==> spec_request_body(body) == Some(
            Err::<InferredModel, InferErrorModel>(InferErrorModel::NonJsonBody),
        ),
        ({
            let schema = spec_json_body_schema(body);
            schema.spec_str_at("$ref"@) is None && schema.spec_str_at("type"@) == Some("string"@)
                && schema.spec_str_at("format"@) is None ==> spec_request_body(body) == Some(
                Ok::<InferredModel, InferErrorModel>(spec_plain(TypeModel::OwnedString, false)),
            )
        }),
        !(spec_json_body_schema(body) is BadValue) ==> spec_request_body(body) == spec_infer_as(
            spec_json_body_schema(body),
            0,
            true,
        ),
{
    let schema = spec_json_body_schema(body);
    if schema.spec_str_at("$ref"@) is None {
        lemma_scalar_types(schema, 0, true);
    }
    if schema.spec_str_at("type"@) is Some {
        assert(!(schema is BadValue));
    }
}

/// The type of a request body, with the structs it needs; `None` where its
/// schema cannot be read.
pub fn try_infer_v3(body: &YamlNode) -> (res: Option<Result<InferredType, InferError>>)
    ensures
        match (res, spec_request_body(*body)) {
            (Some(Ok(t)), Some(Ok(m))) => t@ == m,
            (Some(Err(e)), Some(Err(f))) => e@ == f,
            (None, None) => true,
            _ => false,
        },
{
    let schema = match body.get("content") {
        Some(content) => match content.get("application/json") {
            Some(json) => json.get("schema"),
            None => None,
        },
        None => None,
    };
    match schema {
        None => Some(Err(InferError::NonJsonBody)),
        Some(YamlNode::BadValue) => Some(Err(InferError::NonJsonBody)),
        Some(schema) => {
            let mut support: Vec<StructDef> = Vec::new();
            match infer_into_as(schema, &mut support, true) {
                Some(Ok((ty, has_lifetime))) => {
                    assert(spec_structs_view(support@) =~= Seq::<StructModel>::empty()
                        + spec_infer_as(*schema, 0, true).unwrap()->Ok_0.support);
                    Some(Ok(InferredType { ty, has_lifetime, support }))
                },
                Some(Err(e)) => Some(Err(e)),
                None => None,
            }
        },
    }
}

/// The type of a request body, with the structs it needs.
pub fn infer_v3(body: &YamlNode) -> (res: Result<InferredType, InferError>)
    requires
        spec_request_body(*body) is Some,
    ensures
        match (res, spec_request_body(*body)) {
            (Ok(x), Some(Ok(m))) => x@ == m,
            (Err(e), Some(Err(f))) => e@ == f,
            _ => false,
        },
{
    match try_infer_v3(body) {
        Some(res) => res,
        None => {
            proof {
                assert(false);
            }
            Err(InferError::MissingType)
        },
    }
}

} // verus!
