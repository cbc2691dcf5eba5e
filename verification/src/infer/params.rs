//! The path parameters of an operation: one argument per parameter, and the
//! placeholder in the path that its value fills.
use vstd::prelude::*;

use crate::naming::spec_to_snake_case;
use crate::naming::to_snake_case;
use crate::text::push_char;
use crate::text::push_str;
use crate::text::str_eq;
use crate::yaml::YamlNode;
use super::datatype::infer_into;
use super::datatype::spec_infer;
use super::location::kept;
use super::location::lemma_select_all;
use super::location::lemma_select_prefix_len;
use super::location::lemma_select_step;
use super::location::spec_kept;
use super::location::spec_place;
use super::location::spec_select;
use super::types::InferError;
use super::types::InferErrorModel;
use super::types::RustType;
use super::types::StructDef;
use super::types::StructModel;
use super::types::TypeModel;
use super::types::spec_structs_view;

verus! {

/// A path parameter's argument.
#[derive(Debug)]
pub struct PathParam {
    /// The argument's Rust name: the parameter's name in snake case.
    pub ident: String,
    /// The path segment that the value replaces: the name in braces.
    pub placeholder: String,
    pub ty: RustType,
}

pub struct PathParamModel {
    pub ident: Seq<char>,
    pub placeholder: Seq<char>,
    pub ty: TypeModel,
}

impl View for PathParam {
    type V = PathParamModel;

    open spec fn view(&self) -> PathParamModel {
        PathParamModel { ident: self.ident@, placeholder: self.placeholder@, ty: self.ty@ }
    }
}

pub open spec fn spec_path_params_view(params: Seq<PathParam>) -> Seq<PathParamModel> {
    params.map_values(|p: PathParam| p@)
}

/// The path parameters of an operation.
#[derive(Debug)]
pub struct PathParams {
    pub params: Vec<PathParam>,
    pub support: Vec<StructDef>,
    /// The last parameter names the resource; a `delete` takes it by
    /// value, so that it cannot be used again, and any other method by
    /// reference.
    pub last_by_value: bool,
}

pub struct PathParamsModel {
    pub params: Seq<PathParamModel>,
    pub support: Seq<StructModel>,
    pub last_by_value: bool,
}

impl View for PathParams {
    type V = PathParamsModel;

    open spec fn view(&self) -> PathParamsModel {
        PathParamsModel {
            params: spec_path_params_view(self.params@),
            support: spec_structs_view(self.support@),
            last_by_value: self.last_by_value,
        }
    }
}

/// The arguments gathered so far, with their supporting structs.
pub struct ParamListModel {
    pub params: Seq<PathParamModel>,
    pub support: Seq<StructModel>,
}

/// The placeholder of a parameter named `name`: `{name}`.
pub open spec fn spec_placeholder(name: Seq<char>) -> Seq<char> {
    seq!['{'] + name + seq!['}']
}

/// The arguments of the parameters `params`, in order, their supporting
/// structs numbered from `base`; `None` where a name is not a string or a
/// schema cannot be read.
pub open spec fn spec_param_list(params: Seq<YamlNode>, base: nat) -> Option<
    Result<ParamListModel, InferErrorModel>,
>
    decreases params.len(),
{
    if params.len() == 0 {
        Some(Ok(ParamListModel { params: Seq::empty(), support: Seq::empty() }))
    } else {
        match spec_param_list(params.drop_last(), base) {
            Some(Ok(acc)) => match params.last().spec_str_at("name"@) {
                None => None,
                Some(name) => {
                    let schema = match params.last().spec_get("schema"@) {
                        Some(s) => s,
                        None => YamlNode::BadValue,
                    };
                    match spec_infer(schema, base + acc.support.len()) {
                        Some(Ok(m)) => Some(
                            Ok(
                                ParamListModel {
                                    params: acc.params.push(
                                        PathParamModel {
                                            ident: spec_to_snake_case(name),
                                            placeholder: spec_placeholder(name),
                                            ty: m.ty,
                                        },
                                    ),
                                    support: acc.support + m.support,
                                },
                            ),
                        ),
                        Some(Err(e)) => Some(Err(e)),
                        None => None,
                    }
                },
            },
            other => other,
        }
    }
}

/// The path parameters of an operation of `method`: `None` when there are
/// none, as there must be at least the one that names the resource.
pub open spec fn spec_path_params(method: Seq<char>, params: Seq<YamlNode>) -> Option<
    Result<PathParamsModel, InferErrorModel>,
> {
    if params.len() == 0 {
        None
    } else {
        match spec_param_list(params, 0) {
            Some(Ok(acc)) => Some(
                Ok(
                    PathParamsModel {
                        params: acc.params,
                        support: acc.support,
                        last_by_value: method == "delete"@,
                    },
                ),
            ),
            Some(Err(e)) => Some(Err(e)),
            None => None,
        }
    }
}

proof fn lemma_param_list_prefix(params: Seq<YamlNode>, place: Option<Seq<char>>, k: int)
    requires
        0 <= k <= params.len(),
    ensures
        spec_param_list(spec_select(params.take(k), place), 0) is None ==> spec_param_list(
            spec_select(params, place),
            0,
        ) is None,
        spec_param_list(spec_select(params.take(k), place), 0) matches Some(Err(e))
            ==> spec_param_list(spec_select(params, place), 0) == Some(
            Err::<ParamListModel, InferErrorModel>(e),
        ),
    decreases params.len() - k,
{
    if k < params.len() {
        let d = params.drop_last();
        let s = spec_select(d, place);
        if spec_kept(params.last(), place) {
            assert(spec_select(params, place).drop_last() =~= s);
        }
        lemma_param_list_prefix(d, place, k);
        assert(d.take(k) =~= params.take(k));
    } else {
        assert(params.take(k) =~= params);
    }
}

/// The placeholder of a parameter named `name`.
fn placeholder(name: &str) -> (p: String)
    ensures
        p@ == spec_placeholder(name@),
{
    let mut p = String::new();
    push_char(&mut p, '{');
    push_str(&mut p, name);
    push_char(&mut p, '}');
    p
}

/// The path parameters among `params`: all of them when `place` is `None`,
/// else those whose `in` is `place`.
pub(crate) fn path_params_from(method: &str, params: &Vec<YamlNode>, place: Option<&str>) -> (res:
    Option<Result<PathParams, InferError>>)
    ensures
        match (res, spec_path_params(method@, spec_select(params@, spec_place(place)))) {
            (Some(Ok(p)), Some(Ok(m))) => p@ == m,
            (Some(Err(e)), Some(Err(f))) => e@ == f,
            (None, None) => true,
            _ => false,
        },
{
    let ghost pl = spec_place(place);
    let mut list: Vec<PathParam> = Vec::new();
    let mut support: Vec<StructDef> = Vec::new();
    let n = params.len();
    let mut i: usize = 0;
    assert(params@.take(0) =~= Seq::<YamlNode>::empty());
    assert(spec_path_params_view(list@) =~= Seq::<PathParamModel>::empty());
    assert(spec_structs_view(support@) =~= Seq::<StructModel>::empty());
    while i < n
        invariant
            n == params@.len(),
            0 <= i <= n,
            pl == spec_place(place),
            spec_param_list(spec_select(params@.take(i as int), pl), 0) matches Some(Ok(acc)) && {
                &&& spec_path_params_view(list@) == acc.params
                &&& spec_structs_view(support@) == acc.support
            },
        decreases n - i,
    {
        proof {
            lemma_param_list_prefix(params@, pl, i as int + 1);
            lemma_select_step(params@, pl, i as int);
        }
        if kept(&params[i], place) {
            let ghost prefix = spec_select(params@.take(i as int), pl);
            let ghost acc = spec_param_list(prefix, 0).unwrap()->Ok_0;
            proof {
                assert(prefix.push(params@[i as int]).drop_last() =~= prefix);
                lemma_select_prefix_len(params@, pl, i as int + 1);
            }
            let name = match params[i].str_at("name") {
                Some(name) => name,
                None => {
                    return None;
                },
            };
            assert(spec_structs_view(support@).len() == support@.len());
            let inferred = match params[i].get("schema") {
                Some(schema) => infer_into(schema, &mut support),
                None => infer_into(&YamlNode::BadValue, &mut support),
            };
            match inferred {
                Some(Ok((ty, _))) => {
                    let ghost before = list@;
                    list.push(PathParam { ident: to_snake_case(name), placeholder: placeholder(name), ty });
                    proof {
                        assert(spec_path_params_view(list@) =~= spec_path_params_view(before).push(
                            list@.last()@,
                        ));
                    }
                },
                Some(Err(e)) => {
                    return Some(Err(e));
                },
                None => {
                    return None;
                },
            }
        }
        i = i + 1;
    }
    assert(params@.take(n as int) =~= params@);
    if list.len() == 0 {
        proof {
            assert(spec_path_params_view(list@).len() == list@.len());
            lemma_param_list_len(spec_select(params@, pl), 0);
        }
        return None;
    }
    proof {
        lemma_param_list_len(spec_select(params@, pl), 0);
        assert(spec_path_params_view(list@).len() == list@.len());
    }
    let last_by_value = str_eq(method, "delete");
    Some(Ok(PathParams { params: list, support, last_by_value }))
}

proof fn lemma_param_list_len(params: Seq<YamlNode>, base: nat)
    ensures
        spec_param_list(params, base) matches Some(Ok(acc)) ==> acc.params.len() == params.len(),
    decreases params.len(),
{
    if params.len() > 0 {
        lemma_param_list_len(params.drop_last(), base);
    }
}

/// The path parameters `params` of an operation of `method`: each one's
/// argument name and placeholder, and its type with the structs it needs.
/// `None` when there are none, or a parameter cannot be read.
pub fn try_infer_v3(method: &str, params: &Vec<YamlNode>) -> (res: Option<Result<PathParams, InferError>>)
    ensures
        match (res, spec_path_params(method@, params@)) {
            (Some(Ok(p)), Some(Ok(m))) => p@ == m,
            (Some(Err(e)), Some(Err(f))) => e@ == f,
            (None, None) => true,
            _ => false,
        },
{
    proof {
        lemma_select_all(params@);
    }
    path_params_from(method, params, None)
}

proof fn lemma_param_list_names(params: Seq<YamlNode>, base: nat)
    ensures
        spec_param_list(params, base) matches Some(Ok(acc)) ==> {
            &&& acc.params.len() == params.len()
            &&& forall|i: int|
                0 <= i < params.len() ==> {
                    &&& (#[trigger] params[i]).spec_str_at("name"@) is Some
                    &&& acc.params[i].placeholder == spec_placeholder(
                        params[i].spec_str_at("name"@).unwrap(),
                    )
                    &&& acc.params[i].ident == spec_to_snake_case(
                        params[i].spec_str_at("name"@).unwrap(),
                    )
                }
        },
    decreases params.len(),
{
    if params.len() > 0 {
        lemma_param_list_names(params.drop_last(), base);
        if let Some(Ok(acc)) = spec_param_list(params, base) {
            let prev = spec_param_list(params.drop_last(), base).unwrap()->Ok_0;
            assert forall|i: int| 0 <= i < params.len() implies {
                &&& (#[trigger] params[i]).spec_str_at("name"@) is Some
                &&& acc.params[i].placeholder == spec_placeholder(
                    params[i].spec_str_at("name"@).unwrap(),
                )
                &&& acc.params[i].ident == spec_to_snake_case(
                    params[i].spec_str_at("name"@).unwrap(),
                )
            } by {
                if i < params.len() - 1 {
                    assert(acc.params[i] == prev.params[i]);
                    assert(params.drop_last()[i] == params[i]);
                }
            }
        }
    }
}

/// Each path parameter fills the placeholder that braces its name, under
/// its name in snake case; the resource is taken by value exactly by a
/// `delete`, so that it cannot be used after it is deleted.
pub proof fn lemma_path_params(method: Seq<char>, params: Seq<YamlNode>)
    ensures
        spec_path_params(method, params) matches Some(Ok(pp)) ==> {
            &&& pp.last_by_value <==> method == "delete"@
            &&& pp.params.len() == params.len()
            &&& forall|i: int|
                0 <= i < params.len() ==> {
                    &&& (#[trigger] params[i]).spec_str_at("name"@) is Some
                    &&& pp.params[i].placeholder == spec_placeholder(
                        params[i].spec_str_at("name"@).unwrap(),
                    )
                    &&& pp.params[i].ident == spec_to_snake_case(
                        params[i].spec_str_at("name"@).unwrap(),
                    )
                }
        },
{
    lemma_param_list_names(params, 0);
}

/// The path parameters `params` of an operation of `method`.
pub fn infer_v3(method: &str, params: &Vec<YamlNode>) -> (res: Result<PathParams, InferError>)
    requires
        spec_path_params(method@, params@) is Some,
    ensures
        match (res, spec_path_params(method@, params@)) {
            (Ok(x), Some(Ok(m))) => x@ == m,
            (Err(e), Some(Err(f))) => e@ == f,
            _ => false,
        },
{
    match try_infer_v3(method, params) {
        Some(res) => res,
        None => {
            proof {
                assert(false);
            }
            Err(InferError::MissingType)
        },
    }
}

} // verus!
