//! The Rust type of a query parameter, by its schema's `type` and `format`.
use vstd::prelude::*;

use crate::naming::spec_to_snake_case;
use crate::naming::to_snake_case;
use crate::text::str_eq;
use crate::text::string_of;
use crate::yaml::YamlNode;
use super::body::spec_index;
use super::location::kept;
use super::location::lemma_select_all;
use super::location::lemma_select_step;
use super::location::spec_kept;
use super::location::spec_place;
use super::location::spec_select;
use super::types::InferError;
use super::types::InferErrorModel;
use super::types::RustType;
use super::types::TypeModel;

verus! {

/// The type of a parameter: integers and numbers must name their format;
/// strings are owned.
pub open spec fn spec_infer_type(schema: YamlNode) -> Result<TypeModel, InferErrorModel> {
    match schema.spec_str_at("type"@) {
        None => Err(InferErrorModel::MissingType),
        Some(t) => if t == "integer"@ {
            match schema.spec_str_at("format"@) {
                None => Err(InferErrorModel::MissingFormat),
                Some(f) => if f == "int32"@ {
                    Ok(TypeModel::I32)
                } else if f == "int64"@ {
                    Ok(TypeModel::I64)
                } else {
                    Err(InferErrorModel::InvalidIntegerFormat)
                },
            }
        } else if t == "number"@ {
            match schema.spec_str_at("format"@) {
                None => Err(InferErrorModel::MissingFormat),
                Some(f) => if f == "float"@ {
                    Ok(TypeModel::F32)
                } else if f == "double"@ {
                    Ok(TypeModel::F64)
                } else {
                    Err(InferErrorModel::InvalidNumberFormat)
                },
            }
        } else if t == "string"@ {
            match schema.spec_str_at("format"@) {
                None => Ok(TypeModel::OwnedString),
                Some(f) => if f == "byte"@ {
                    Ok(TypeModel::Base64)
                } else if f == "binary"@ {
                    Ok(TypeModel::Bytes)
                } else if f == "date"@ {
                    Ok(TypeModel::Date)
                } else if f == "date-time"@ {
                    Ok(TypeModel::DateTime)
                } else {
                    Ok(TypeModel::OwnedString)
                },
            }
        } else if t == "boolean"@ {
            match schema.spec_str_at("format"@) {
                None => Ok(TypeModel::Bool),
                Some(_) => Err(InferErrorModel::UnexpectedBooleanFormat),
            }
        } else {
            Err(InferErrorModel::InvalidType(t))
        },
    }
}

/// The Rust type of a parameter's schema.
pub fn infer_type(schema: &YamlNode) -> (res: Result<RustType, InferError>)
    ensures
        match (res, spec_infer_type(*schema)) {
            (Ok(t), Ok(m)) => t@ == m,
            (Err(e), Err(f)) => e@ == f,
            _ => false,
        },
{
    let t = match schema.str_at("type") {
        None => {
            return Err(InferError::MissingType);
        },
        Some(t) => t,
    };
    if str_eq(t, "integer") {
        match schema.str_at("format") {
            None => Err(InferError::MissingFormat),
            Some(f) => if str_eq(f, "int32") {
                Ok(RustType::I32)
            } else if str_eq(f, "int64") {
                Ok(RustType::I64)
            } else {
                Err(InferError::InvalidIntegerFormat)
            },
        }
    } else if str_eq(t, "number") {
        match schema.str_at("format") {
            None => Err(InferError::MissingFormat),
            Some(f) => if str_eq(f, "float") {
                Ok(RustType::F32)
            } else if str_eq(f, "double") {
                Ok(RustType::F64)
            } else {
                Err(InferError::InvalidNumberFormat)
            },
        }
    } else if str_eq(t, "string") {
        match schema.str_at("format") {
            None => Ok(RustType::OwnedString),
            Some(f) => if str_eq(f, "byte") {
                Ok(RustType::Base64)
            } else if str_eq(f, "binary") {
                Ok(RustType::Bytes)
            } else if str_eq(f, "date") {
                Ok(RustType::Date)
            } else if str_eq(f, "date-time") {
                Ok(RustType::DateTime)
            } else {
                Ok(RustType::OwnedString)
            },
        }
    } else if str_eq(t, "boolean") {
        match schema.str_at("format") {
            None => Ok(RustType::Bool),
            Some(_) => Err(InferError::UnexpectedBooleanFormat),
        }
    } else {
        Err(InferError::InvalidType(string_of(t)))
    }
}

/// A field of the struct of an operation's query parameters.
#[derive(Debug)]
pub struct ParamField {
    /// The field's Rust name: the parameter's name in snake case.
    pub ident: String,
    /// The parameter's name in the query string.
    pub name: String,
    pub ty: RustType,
}

pub struct ParamFieldModel {
    pub ident: Seq<char>,
    pub name: Seq<char>,
    pub ty: TypeModel,
}

impl View for ParamField {
    type V = ParamFieldModel;

    open spec fn view(&self) -> ParamFieldModel {
        ParamFieldModel { ident: self.ident@, name: self.name@, ty: self.ty@ }
    }
}

pub open spec fn spec_param_fields_view(fields: Seq<ParamField>) -> Seq<ParamFieldModel> {
    fields.map_values(|f: ParamField| f@)
}

/// The fields of the parameters `params`, in order: `None` where a name is
/// not a string, else the fields or the first parameter whose type cannot
/// be inferred.
pub open spec fn spec_param_fields(params: Seq<YamlNode>) -> Option<
    Result<Seq<ParamFieldModel>, InferErrorModel>,
>
    decreases params.len(),
{
    if params.len() == 0 {
        Some(Ok(Seq::empty()))
    } else {
        match spec_param_fields(params.drop_last()) {
            Some(Ok(acc)) => match params.last().spec_str_at("name"@) {
                None => None,
                Some(name) => match spec_infer_type(spec_index(params.last(), "schema"@)) {
                    Ok(ty) => Some(
                        Ok(acc.push(ParamFieldModel { ident: spec_to_snake_case(name), name, ty })),
                    ),
                    Err(e) => Some(Err(e)),
                },
            },
            other => other,
        }
    }
}

proof fn lemma_param_fields_prefix(params: Seq<YamlNode>, place: Option<Seq<char>>, k: int)
    requires
        0 <= k <= params.len(),
    ensures
        spec_param_fields(spec_select(params.take(k), place)) is None ==> spec_param_fields(
            spec_select(params, place),
        ) is None,
        spec_param_fields(spec_select(params.take(k), place)) matches Some(Err(e))
            ==> spec_param_fields(spec_select(params, place)) == Some(
            Err::<Seq<ParamFieldModel>, InferErrorModel>(e),
        ),
    decreases params.len() - k,
{
    if k < params.len() {
        let d = params.drop_last();
        if spec_kept(params.last(), place) {
            assert(spec_select(params, place).drop_last() =~= spec_select(d, place));
        }
        lemma_param_fields_prefix(d, place, k);
        assert(d.take(k) =~= params.take(k));
    } else {
        assert(params.take(k) =~= params);
    }
}

/// The fields of the parameters among `params`: all of them when `place`
/// is `None`, else those whose `in` is `place`. `None` where a name is not
/// a string.
pub(crate) fn param_fields_from(params: &Vec<YamlNode>, place: Option<&str>) -> (res: Option<
    Result<Vec<ParamField>, InferError>,
>)
    ensures
        match (res, spec_param_fields(spec_select(params@, spec_place(place)))) {
            (Some(Ok(fields)), Some(Ok(m))) => spec_param_fields_view(fields@) == m,
            (Some(Err(e)), Some(Err(f))) => e@ == f,
            (None, None) => true,
            _ => false,
        },
{
    let ghost pl = spec_place(place);
    let mut fields: Vec<ParamField> = Vec::new();
    let n = params.len();
    let mut i: usize = 0;
    assert(params@.take(0) =~= Seq::<YamlNode>::empty());
    assert(spec_param_fields_view(fields@) =~= Seq::<ParamFieldModel>::empty());
    while i < n
        invariant
            n == params@.len(),
            0 <= i <= n,
            pl == spec_place(place),
            spec_param_fields(spec_select(params@.take(i as int), pl)) matches Some(Ok(acc))
                && spec_param_fields_view(fields@) == acc,
        decreases n - i,
    {
        proof {
            lemma_param_fields_prefix(params@, pl, i as int + 1);
            lemma_select_step(params@, pl, i as int);
        }
        if kept(&params[i], place) {
            let ghost prefix = spec_select(params@.take(i as int), pl);
            proof {
                assert(prefix.push(params@[i as int]).drop_last() =~= prefix);
            }
            let name = match params[i].str_at("name") {
                Some(name) => name,
                None => {
                    return None;
                },
            };
            let inferred = match params[i].get("schema") {
                Some(schema) => infer_type(schema),
                None => infer_type(&YamlNode::BadValue),
            };
            match inferred {
                Ok(ty) => {
                    let ghost before = fields@;
                    fields.push(ParamField { ident: to_snake_case(name), name: string_of(name), ty });
                    assert(spec_param_fields_view(fields@) =~= spec_param_fields_view(before).push(
                        fields@.last()@,
                    ));
                },
                Err(e) => {
                    return Some(Err(e));
                },
            }
        }
        i = i + 1;
    }
    assert(params@.take(n as int) =~= params@);
    Some(Ok(fields))
}

/// The fields of the struct of query parameters `params`: each parameter's
/// name in snake case and the type of its schema. `None` unless `params` is
/// a list whose names are strings.
pub fn try_infer_v3(params: &YamlNode) -> (res: Option<Result<Vec<ParamField>, InferError>>)
    ensures
        match params {
            YamlNode::Array(items) => match (res, spec_param_fields(items@)) {
                (Some(Ok(fields)), Some(Ok(m))) => spec_param_fields_view(fields@) == m,
                (Some(Err(e)), Some(Err(f))) => e@ == f,
                (None, None) => true,
                _ => false,
            },
            _ => res is None,
        },
{
    match params {
        YamlNode::Array(items) => {
            proof {
                lemma_select_all(items@);
            }
            param_fields_from(items, None)
        },
        _ => None,
    }
}

/// The fields of the struct of query parameters `params`.
pub fn infer_v3(params: &YamlNode) -> (res: Result<Vec<ParamField>, InferError>)
    requires
        params matches YamlNode::Array(items) && spec_param_fields(items@) is Some,
    ensures
        match params {
            YamlNode::Array(items) => match (res, spec_param_fields(items@)) {
                (Ok(fields), Some(Ok(m))) => spec_param_fields_view(fields@) == m,
                (Err(e), Some(Err(f))) => e@ == f,
                _ => false,
            },
            _ => false,
        },
{
    match try_infer_v3(params) {
        Some(res) => res,
        None => {
            proof {
                assert(false);
            }
            Err(InferError::MissingType)
        },
    }
}

} // verus!
