//! The query parameters of an operation: one field per parameter, required
//! only where the parameter says so.
use vstd::prelude::*;

use crate::naming::spec_to_snake_case;
use crate::naming::to_snake_case;
use crate::text::string_of;
use crate::yaml::YamlNode;
use super::datatype::infer_into;
use super::datatype::spec_infer;
use super::location::kept;
use super::location::lemma_select_all;
use super::location::lemma_select_step;
use super::location::spec_kept;
use super::location::spec_place;
use super::location::spec_select;
use super::types::InferError;
use super::types::InferErrorModel;
use super::types::RustType;
use super::types::StructDef;
use super::types::TypeModel;

verus! {

/// A query parameter's field.
#[derive(Debug)]
pub struct QueryField {
    /// The field's Rust name: the parameter's name in snake case.
    pub ident: String,
    /// The parameter's name in the query string.
    pub name: String,
    pub ty: RustType,
    /// A required parameter has the type itself; any other has `Option` of it.
    pub required: bool,
}

pub struct QueryFieldModel {
    pub ident: Seq<char>,
    pub name: Seq<char>,
    pub ty: TypeModel,
    pub required: bool,
}

impl View for QueryField {
    type V = QueryFieldModel;

    open spec fn view(&self) -> QueryFieldModel {
        QueryFieldModel { ident: self.ident@, name: self.name@, ty: self.ty@, required: self.required }
    }
}

pub open spec fn spec_query_fields_view(fields: Seq<QueryField>) -> Seq<QueryFieldModel> {
    fields.map_values(|f: QueryField| f@)
}

/// A parameter is required when its `required` is `true`.
pub open spec fn spec_param_required(param: YamlNode) -> bool {
    match param.spec_get("required"@) {
        Some(r) => r.spec_as_bool() == Some(true),
        None => false,
    }
}

/// The field of one query parameter; its supporting structs are not kept.
pub open spec fn spec_query_field(param: YamlNode) -> Option<Result<QueryFieldModel, InferErrorModel>> {
    match param.spec_str_at("name"@) {
        None => None,
        Some(name) => match param.spec_get("schema"@) {
            None => Some(Err(InferErrorModel::MissingType)),
            Some(schema) => match spec_infer(schema, 0) {
                Some(Ok(m)) => Some(
                    Ok(
                        QueryFieldModel {
                            ident: spec_to_snake_case(name),
                            name,
                            ty: m.ty,
                            required: spec_param_required(param),
                        },
                    ),
                ),
                Some(Err(e)) => Some(Err(e)),
                None => None,
            },
        },
    }
}

/// The fields of a list of query parameters, in order.
pub open spec fn spec_query_fields(params: Seq<YamlNode>) -> Option<
    Result<Seq<QueryFieldModel>, InferErrorModel>,
>
    decreases params.len(),
{
    if params.len() == 0 {
        Some(Ok(Seq::empty()))
    } else {
        match spec_query_fields(params.drop_last()) {
            Some(Ok(acc)) => match spec_query_field(params.last()) {
                Some(Ok(f)) => Some(Ok(acc.push(f))),
                Some(Err(e)) => Some(Err(e)),
                None => None,
            },
            other => other,
        }
    }
}

proof fn lemma_query_fields_prefix(params: Seq<YamlNode>, place: Option<Seq<char>>, k: int)
    requires
        0 <= k <= params.len(),
    ensures
        spec_query_fields(spec_select(params.take(k), place)) is None ==> spec_query_fields(
            spec_select(params, place),
        ) is None,
        spec_query_fields(spec_select(params.take(k), place)) matches Some(Err(e))
            ==> spec_query_fields(spec_select(params, place)) == Some(
            Err::<Seq<QueryFieldModel>, InferErrorModel>(e),
        ),
    decreases params.len() - k,
{
    if k < params.len() {
        let d = params.drop_last();
        if spec_kept(params.last(), place) {
            assert(spec_select(params, place).drop_last() =~= spec_select(d, place));
        }
        lemma_query_fields_prefix(d, place, k);
        assert(d.take(k) =~= params.take(k));
    } else {
        assert(params.take(k) =~= params);
    }
}

/// The field of one query parameter; `None` where its name is not a string
/// or its schema cannot be read.
fn query_field(param: &YamlNode) -> (res: Option<Result<QueryField, InferError>>)
    ensures
        match (res, spec_query_field(*param)) {
            (Some(Ok(f)), Some(Ok(m))) => f@ == m,
            (Some(Err(e)), Some(Err(f))) => e@ == f,
            (None, None) => true,
            _ => false,
        },
{
    let name = match param.str_at("name") {
        Some(name) => name,
        None => {
            return None;
        },
    };
    let schema = match param.get("schema") {
        Some(schema) => schema,
        None => {
            return Some(Err(InferError::MissingType));
        },
    };
    let mut discarded: Vec<StructDef> = Vec::new();
    let ty = match infer_into(schema, &mut discarded) {
        Some(Ok((ty, _))) => ty,
        Some(Err(e)) => {
            return Some(Err(e));
        },
        None => {
            return None;
        },
    };
    let required = match param.get("required") {
        Some(r) => match r.as_bool() {
            Some(b) => b,
            None => false,
        },
        None => false,
    };
    Some(Ok(QueryField { ident: to_snake_case(name), name: string_of(name), ty, required }))
}

/// The fields of the query parameters among `params`: all of them when
/// `place` is `None`, else those whose `in` is `place`.
pub(crate) fn query_fields_from(params: &Vec<YamlNode>, place: Option<&str>) -> (res: Option<
    Result<Vec<QueryField>, InferError>,
>)
    ensures
        match (res, spec_query_fields(spec_select(params@, spec_place(place)))) {
            (Some(Ok(fields)), Some(Ok(m))) => spec_query_fields_view(fields@) == m,
            (Some(Err(e)), Some(Err(f))) => e@ == f,
            (None, None) => true,
            _ => false,
        },
{
    let ghost pl = spec_place(place);
    let mut fields: Vec<QueryField> = Vec::new();
    let n = params.len();
    let mut i: usize = 0;
    assert(params@.take(0) =~= Seq::<YamlNode>::empty());
    assert(spec_query_fields_view(fields@) =~= Seq::<QueryFieldModel>::empty());
    while i < n
        invariant
            n == params@.len(),
            0 <= i <= n,
            pl == spec_place(place),
            spec_query_fields(spec_select(params@.take(i as int), pl)) matches Some(Ok(acc))
                && spec_query_fields_view(fields@) == acc,
        decreases n - i,
    {
        proof {
            lemma_query_fields_prefix(params@, pl, i as int + 1);
            lemma_select_step(params@, pl, i as int);
        }
        if kept(&params[i], place) {
            let ghost prefix = spec_select(params@.take(i as int), pl);
            proof {
                assert(prefix.push(params@[i as int]).drop_last() =~= prefix);
            }
            let ghost before = fields@;
            match query_field(&params[i]) {
                Some(Ok(f)) => {
                    fields.push(f);
                    assert(spec_query_fields_view(fields@) =~= spec_query_fields_view(before).push(
                        fields@.last()@,
                    ));
                },
                Some(Err(e)) => {
                    return Some(Err(e));
                },
                None => {
                    return None;
                },
            }
        }
        i = i + 1;
    }
    assert(params@.take(n as int) =~= params@);
    Some(Ok(fields))
}

/// The fields of the query parameters `params`, in order; `None` where a
/// parameter cannot be read.
pub fn try_infer_v3(params: &Vec<YamlNode>) -> (res: Option<Result<Vec<QueryField>, InferError>>)
    ensures
        match (res, spec_query_fields(params@)) {
            (Some(Ok(fields)), Some(Ok(m))) => spec_query_fields_view(fields@) == m,
            (Some(Err(e)), Some(Err(f))) => e@ == f,
            (None, None) => true,
            _ => false,
        },
{
    proof {
        lemma_select_all(params@);
    }
    query_fields_from(params, None)
}

/// Each query parameter gets one field, in order, named by the parameter's
/// name in snake case; it is required exactly when the parameter says
/// `required: true`, and optional otherwise.
pub proof fn lemma_query_fields(params: Seq<YamlNode>)
    ensures
        spec_query_fields(params) matches Some(Ok(fields)) ==> {
            &&& fields.len() == params.len()
            &&& forall|i: int|
                0 <= i < params.len() ==> {
                    &&& (#[trigger] params[i]).spec_str_at("name"@) == Some(fields[i].name)
                    &&& fields[i].ident == spec_to_snake_case(fields[i].name)
                    &&& fields[i].required == spec_param_required(params[i])
                }
        },
    decreases params.len(),
{
    if params.len() > 0 {
        lemma_query_fields(params.drop_last());
        if let Some(Ok(fields)) = spec_query_fields(params) {
            let prev = spec_query_fields(params.drop_last()).unwrap()->Ok_0;
            assert forall|i: int| 0 <= i < params.len() implies {
                &&& (#[trigger] params[i]).spec_str_at("name"@) == Some(fields[i].name)
                &&& fields[i].ident == spec_to_snake_case(fields[i].name)
                &&& fields[i].required == spec_param_required(params[i])
            } by {
                if i < params.len() - 1 {
                    assert(fields[i] == prev[i]);
                    assert(params.drop_last()[i] == params[i]);
                }
            }
        }
    }
}

/// The fields of the query parameters `params`, in order.
pub fn infer_v3(params: &Vec<YamlNode>) -> (res: Result<Vec<QueryField>, InferError>)
    requires
        spec_query_fields(params@) is Some,
    ensures
        match (res, spec_query_fields(params@)) {
            (Ok(x), Some(Ok(m))) => spec_query_fields_view(x@) == m,
            (Err(e), Some(Err(f))) => e@ == f,
            _ => false,
        },
{
    match try_infer_v3(params) {
        Some(res) => res,
        None => {
            proof {
                assert(false);
            }
            Err(InferError::MissingType)
        },
    }
}

} // verus!
