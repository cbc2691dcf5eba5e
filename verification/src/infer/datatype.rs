//! The Rust type of a value schema: scalars by `type` and `format`, arrays
//! as vectors, references by the referenced schema's name, and inline
//! objects as supporting structs.
use vstd::prelude::*;

use crate::naming::spec_to_class_case;
use crate::naming::spec_to_snake_case;
use crate::naming::to_class_case;
use crate::naming::to_snake_case;
use crate::text::spec_split;
use crate::text::split_on;
use crate::text::str_eq;
use crate::text::string_of;
use crate::yaml::YamlNode;
use crate::yaml::lemma_get_decreases;
use super::types::InferErrorModel;
use super::types::RustType;
use super::types::StructDef;
use super::types::StructModel;
use super::types::FieldModel;
use super::types::Field;
use super::types::TypeModel;
use super::types::InferError;
use super::types::spec_structs_view;
use super::types::spec_fields_view;

verus! {

/// A type together with whether it borrows from the response and the
/// supporting structs that it needs.
pub struct InferredModel {
    pub ty: TypeModel,
    pub has_lifetime: bool,
    pub support: Seq<StructModel>,
}

/// The inferred type of a value schema, with its supporting structs.
#[derive(Debug)]
pub struct InferredType {
    pub ty: RustType,
    pub has_lifetime: bool,
    pub support: Vec<StructDef>,
}

impl View for InferredType {
    type V = InferredModel;

    open spec fn view(&self) -> InferredModel {
        InferredModel {
            ty: self.ty@,
            has_lifetime: self.has_lifetime,
            support: spec_structs_view(self.support@),
        }
    }
}

/// The type name a `$ref` points at: the class-case form of its last
/// `/`-separated segment.
pub open spec fn spec_ref_name(reference: Seq<char>) -> Seq<char> {
    spec_to_class_case(spec_split(reference, '/').last())
}

/// The names under `required`: none when there is no list, and undefined
/// (`None`) when the list holds something other than strings.
pub open spec fn spec_required_names(schema: YamlNode) -> Option<Seq<Seq<char>>> {
    match schema.spec_get("required"@) {
        Some(YamlNode::Array(items)) => if forall|i: int|
            0 <= i < items@.len() ==> (#[trigger] items@[i]).spec_as_str() is Some {
            Some(items@.map_values(|y: YamlNode| y.spec_as_str().unwrap()))
        } else {
            None
        },
        _ => Some(Seq::empty()),
    }
}

pub open spec fn spec_leaf(ty: TypeModel, has_lifetime: bool) -> Option<
    Result<InferredModel, InferErrorModel>,
> {
    Some(Ok(InferredModel { ty, has_lifetime, support: Seq::empty() }))
}

pub open spec fn spec_fail(e: InferErrorModel) -> Option<Result<InferredModel, InferErrorModel>> {
    Some(Err(e))
}

/// The type of a text: an owned `String` where the value is owned (a
/// request body), else `&'a str` borrowed from the response.
pub open spec fn spec_text(owned: bool) -> Option<Result<InferredModel, InferErrorModel>> {
    if owned {
        spec_leaf(TypeModel::OwnedString, false)
    } else {
        spec_leaf(TypeModel::StrRef, true)
    }
}

/// The type of a value schema whose supporting structs are numbered from
/// `base`, its plain texts owned or borrowed as `owned` says: `None` where
/// inference cannot go on (a malformed object or `required` list), else the
/// type or the error.
pub open spec fn spec_infer_as(schema: YamlNode, base: nat, owned: bool) -> Option<
    Result<InferredModel, InferErrorModel>,
>
    decreases schema,
{
    if let Some(reference) = schema.spec_str_at("$ref"@) {
        spec_leaf(TypeModel::SchemaRef(spec_ref_name(reference)), false)
    } else {
        match schema.spec_str_at("type"@) {
            None => spec_fail(InferErrorModel::MissingType),
            Some(t) => if t == "array"@ {
                match schema.spec_get("items"@) {
                    None => spec_fail(InferErrorModel::MissingType),
                    Some(items) => {
                        proof {
                            lemma_get_decreases(schema, "items"@);
                        }
                        match spec_infer_as(items, base, owned) {
                            Some(Ok(m)) => Some(
                                Ok(
                                    InferredModel {
                                        ty: TypeModel::Vec(Box::new(m.ty)),
                                        has_lifetime: m.has_lifetime,
                                        support: m.support,
                                    },
                                ),
                            ),
                            other => other,
                        }
                    },
                }
            } else if t == "object"@ {
                match spec_required_names(schema) {
                    None => None,
                    Some(required) => match schema.spec_get("properties"@) {
                        Some(YamlNode::Hash(entries)) => {
                            proof {
                                lemma_get_decreases(schema, "properties"@);
                            }
                            spec_object_result(spec_infer_fields(entries@, required, base, owned), base)
                        },
                        _ => None,
                    },
                }
            } else if t == "integer"@ {
                match schema.spec_str_at("format"@) {
                    None => spec_leaf(TypeModel::I64, false),
                    Some(f) => if f == "int64"@ {
                        spec_leaf(TypeModel::I64, false)
                    } else if f == "int32"@ {
                        spec_leaf(TypeModel::I32, false)
                    } else {
                        spec_fail(InferErrorModel::InvalidIntegerFormat)
                    },
                }
            } else if t == "number"@ {
                match schema.spec_str_at("format"@) {
                    None => spec_leaf(TypeModel::F64, false),
                    Some(f) => if f == "double"@ {
                        spec_leaf(TypeModel::F64, false)
                    } else if f == "float"@ {
                        spec_leaf(TypeModel::F32, false)
                    } else {
                        spec_fail(InferErrorModel::InvalidNumberFormat)
                    },
                }
            } else if t == "string"@ {
                match schema.spec_str_at("format"@) {
                    None => spec_text(owned),
                    Some(f) => if f == "byte"@ {
                        spec_leaf(TypeModel::Base64, false)
                    } else if f == "binary"@ {
                        spec_leaf(TypeModel::Bytes, true)
                    } else if f == "date"@ {
                        spec_leaf(TypeModel::Date, false)
                    } else if f == "date-time"@ {
                        spec_leaf(TypeModel::DateTime, false)
                    } else {
                        spec_text(owned)
                    },
                }
            } else if t == "boolean"@ {
                match schema.spec_str_at("format"@) {
                    None => spec_leaf(TypeModel::Bool, false),
                    Some(_) => spec_fail(InferErrorModel::UnexpectedBooleanFormat),
                }
            } else {
                spec_fail(InferErrorModel::InvalidType(t))
            },
        }
    }
}

/// An inline object's type, once its properties are gathered: the struct
/// comes after the structs its fields need.
pub open spec fn spec_object_result(
    fields: Option<Result<FieldsModel, InferErrorModel>>,
    base: nat,
) -> Option<Result<InferredModel, InferErrorModel>> {
    match fields {
        Some(Ok(acc)) => Some(
            Ok(
                InferredModel {
                    ty: TypeModel::Anonymous(base + acc.support.len()),
                    has_lifetime: acc.has_lifetime,
                    support: acc.support.push(
                        StructModel { fields: acc.fields, has_lifetime: acc.has_lifetime },
                    ),
                },
            ),
        ),
        Some(Err(e)) => Some(Err(e)),
        None => None,
    }
}

/// The fields gathered so far from an object's properties.
pub struct FieldsModel {
    pub fields: Seq<FieldModel>,
    pub has_lifetime: bool,
    pub support: Seq<StructModel>,
}

/// The fields of the properties `entries`, in order, their supporting
/// structs numbered from `base`.
pub open spec fn spec_infer_fields(
    entries: Seq<(YamlNode, YamlNode)>,
    required: Seq<Seq<char>>,
    base: nat,
    owned: bool,
) -> Option<Result<FieldsModel, InferErrorModel>>
    decreases entries,
{
    if entries.len() == 0 {
        Some(Ok(FieldsModel { fields: Seq::empty(), has_lifetime: false, support: Seq::empty() }))
    } else {
        match spec_infer_fields(entries.drop_last(), required, base, owned) {
            Some(Ok(acc)) => match entries.last().0.spec_as_str() {
                None => None,
                Some(name) => {
                    proof {
                        assert(decreases_to!(entries => entries[entries.len() - 1]));
                    }
                    match spec_infer_as(entries.last().1, base + acc.support.len(), owned) {
                        Some(Ok(m)) => Some(
                            Ok(
                                FieldsModel {
                                    fields: acc.fields.push(
                                        FieldModel {
                                            name,
                                            ident: spec_to_snake_case(name),
                                            ty: m.ty,
                                            required: required.contains(name),
                                        },
                                    ),
                                    has_lifetime: acc.has_lifetime || m.has_lifetime,
                                    support: acc.support + m.support,
                                },
                            ),
                        ),
                        Some(Err(e)) => Some(Err(e)),
                        None => None,
                    }
                },
            },
            other => other,
        }
    }
}

} // verus!

verus! {

/// The required names as the schema lists them; `None` when the list holds
/// something other than strings.
fn required_names(schema: &YamlNode) -> (names: Option<Vec<String>>)
    ensures
        match (names, spec_required_names(*schema)) {
            (Some(n), Some(m)) => n@.map_values(|s: String| s@) == m,
            (None, None) => true,
            _ => false,
        },
{
    let mut names: Vec<String> = Vec::new();
    match schema.get("required") {
        Some(YamlNode::Array(items)) => {
            let n = items.len();
            let mut i: usize = 0;
            while i < n
                invariant
                    n == items@.len(),
                    0 <= i <= n,
                    schema.spec_get("required"@) == Some(YamlNode::Array(*items)),
                    forall|j: int| 0 <= j < i ==> (#[trigger] items@[j]).spec_as_str() is Some,
                    names@.map_values(|s: String| s@) == items@.take(i as int).map_values(
                        |y: YamlNode| y.spec_as_str().unwrap(),
                    ),
                decreases n - i,
            {
                let ghost before = names@;
                assert(items@.take(i + 1) =~= items@.take(i as int).push(items@[i as int]));
                match items[i].as_str() {
                    Some(s) => {
                        names.push(string_of(s));
                        assert(names@ =~= before.push(names@.last()));
                        assert(names@.map_values(|s: String| s@) =~= before.map_values(
                            |s: String| s@,
                        ).push(s@));
                    },
                    None => {
                        return None;
                    },
                }
                assert(names@.map_values(|s: String| s@) =~= items@.take(i + 1).map_values(
                    |y: YamlNode| y.spec_as_str().unwrap(),
                ));
                i = i + 1;
            }
            assert(items@.take(n as int) =~= items@);
        },
        _ => {
            assert(names@.map_values(|s: String| s@) =~= Seq::<Seq<char>>::empty());
        },
    }
    Some(names)
}

/// Whether the list holds the text `s`.
pub fn contains_str(list: &Vec<String>, s: &str) -> (b: bool)
    ensures
        b == list@.map_values(|x: String| x@).contains(s@),
{
    let n = list.len();
    let mut i: usize = 0;
    while i < n
        invariant
            n == list@.len(),
            0 <= i <= n,
            forall|j: int| 0 <= j < i ==> list@[j]@ != s@,
        decreases n - i,
    {
        if str_eq(list[i].as_str(), s) {
            assert(list@.map_values(|x: String| x@)[i as int] == s@);
            return true;
        }
        i = i + 1;
    }
    proof {
        let v = list@.map_values(|x: String| x@);
        if v.contains(s@) {
            let k = choose|k: int| 0 <= k < v.len() && v[k] == s@;
            assert(list@[k]@ == s@);
        }
    }
    false
}

/// The type name that a `$ref` points at.
pub fn ref_name(reference: &str) -> (name: String)
    ensures
        name@ == spec_ref_name(reference@),
{
    let parts = split_on(reference, '/');
    proof {
        crate::text::lemma_split_nonempty(reference@, '/');
    }
    let last = parts.len() - 1;
    to_class_case(parts[last].as_str())
}

/// The type of a value schema whose plain texts are borrowed from the
/// response, its supporting structs numbered from `base`.
pub open spec fn spec_infer(schema: YamlNode, base: nat) -> Option<
    Result<InferredModel, InferErrorModel>,
> {
    spec_infer_as(schema, base, false)
}

/// The type of a text, owned or borrowed.
fn text_type(owned: bool) -> (res: Result<(RustType, bool), InferError>)
    ensures
        match (res, spec_text(owned)) {
            (Ok((ty, lt)), Some(Ok(m))) => ty@ == m.ty && lt == m.has_lifetime,
            _ => false,
        },
{
    if owned {
        Ok((RustType::OwnedString, false))
    } else {
        Ok((RustType::StrRef, true))
    }
}

/// Infers the type of `schema`, its plain texts borrowed, pushing the
/// supporting structs it needs; `None` where the schema cannot be read.
pub(crate) fn infer_into(schema: &YamlNode, support: &mut Vec<StructDef>) -> (res: Option<
    Result<(RustType, bool), InferError>,
>)
    ensures
        match (res, spec_infer(*schema, old(support)@.len() as nat)) {
            (Some(Ok((ty, lt))), Some(Ok(m))) => {
                &&& ty@ == m.ty
                &&& lt == m.has_lifetime
                &&& spec_structs_view(final(support)@) == spec_structs_view(old(support)@)
                    + m.support
            },
            (Some(Err(e)), Some(Err(f))) => e@ == f,
            (None, None) => true,
            _ => false,
        },
{
    infer_into_as(schema, support, false)
}

/// Infers the type of `schema`, its plain texts owned or borrowed as
/// `owned` says, pushing the supporting structs it needs; `None` where the
/// schema cannot be read.
pub(crate) fn infer_into_as(schema: &YamlNode, support: &mut Vec<StructDef>, owned: bool) -> (res: Option<
    Result<(RustType, bool), InferError>,
>)
    ensures
        match (res, spec_infer_as(*schema, old(support)@.len() as nat, owned)) {
            (Some(Ok((ty, lt))), Some(Ok(m))) => {
                &&& ty@ == m.ty
                &&& lt == m.has_lifetime
                &&& spec_structs_view(final(support)@) == spec_structs_view(old(support)@)
                    + m.support
            },
            (Some(Err(e)), Some(Err(f))) => e@ == f,
            (None, None) => true,
            _ => false,
        },
    decreases *schema,
{
    let ghost base = support@.len() as nat;
    if let Some(reference) = schema.str_at("$ref") {
        assert(spec_structs_view(support@) =~= spec_structs_view(support@) + Seq::<
            StructModel,
        >::empty());
        return Some(Ok((RustType::SchemaRef(ref_name(reference)), false)));
    }
    assert(spec_structs_view(support@) =~= spec_structs_view(support@) + Seq::<
        StructModel,
    >::empty());
    let t = match schema.str_at("type") {
        None => {
            return Some(Err(InferError::MissingType));
        },
        Some(t) => t,
    };
    if str_eq(t, "array") {
        match schema.get("items") {
            None => Some(Err(InferError::MissingType)),
            Some(items) => {
                proof {
                    lemma_get_decreases(*schema, "items"@);
                }
                match infer_into_as(items, support, owned) {
                    Some(Ok((item, lt))) => Some(Ok((RustType::Vec(Box::new(item)), lt))),
                    other => other,
                }
            },
        }
    } else if str_eq(t, "object") {
        let required = match required_names(schema) {
            Some(r) => r,
            None => {
                return None;
            },
        };
        let props = schema.get("properties");
        let entries = match props {
            Some(YamlNode::Hash(entries)) => entries,
            _ => {
                return None;
            },
        };
        proof {
            lemma_get_decreases(*schema, "properties"@);
        }
        let ghost req = spec_required_names(*schema).unwrap();
        let ghost start = support@;
        let mut fields: Vec<Field> = Vec::new();
        let mut has_lifetime = false;
        let n = entries.len();
        let mut i: usize = 0;
        assert(entries@.take(0) =~= Seq::<(YamlNode, YamlNode)>::empty());
        assert(spec_structs_view(support@) =~= spec_structs_view(start) + Seq::<
            StructModel,
        >::empty());
        assert(spec_fields_view(fields@) =~= Seq::<FieldModel>::empty());
        while i < n
            invariant
                n == entries@.len(),
                0 <= i <= n,
                base == start.len(),
                base == old(support)@.len(),
                spec_infer_as(*schema, base, owned) == spec_object_result(
                    spec_infer_fields(entries@, req, base, owned),
                    base,
                ),
                decreases_to!(*schema => *entries),
                required@.map_values(|s: String| s@) == req,
                spec_infer_fields(entries@.take(i as int), req, base, owned) matches Some(Ok(acc)) && {
                    &&& spec_fields_view(fields@) == acc.fields
                    &&& has_lifetime == acc.has_lifetime
                    &&& spec_structs_view(support@) == spec_structs_view(start) + acc.support
                },
            decreases n - i,
        {
            proof {
                lemma_fields_prefix(entries@, req, base, i as int + 1, owned);
                assert(entries@.take(i + 1).drop_last() =~= entries@.take(i as int));
                assert(entries@.take(i + 1).last() == entries@[i as int]);
                assert(decreases_to!(*entries => entries@));
                assert(decreases_to!(entries@ => entries@[i as int]));
            }
            let ghost acc = spec_infer_fields(entries@.take(i as int), req, base, owned).unwrap()->Ok_0;
            let name = match entries[i].0.as_str() {
                Some(name) => name,
                None => {
                    return None;
                },
            };
            assert(spec_structs_view(support@).len() == support@.len());
            assert(spec_structs_view(start).len() == start.len());
            assert(support@.len() == base + acc.support.len());
            match infer_into_as(&entries[i].1, support, owned) {
                Some(Ok((ty, lt))) => {
                    let ident = to_snake_case(name);
                    let is_required = contains_str(&required, name);
                    fields.push(Field { name: string_of(name), ident, ty, required: is_required });
                    has_lifetime = has_lifetime || lt;
                    proof {
                        let m = spec_infer_as(entries@[i as int].1, base + acc.support.len(), owned).unwrap()->Ok_0;
                        assert(spec_fields_view(fields@) =~= acc.fields.push(
                            FieldModel {
                                name: name@,
                                ident: spec_to_snake_case(name@),
                                ty: m.ty,
                                required: req.contains(name@),
                            },
                        ));
                        assert(spec_structs_view(support@) =~= spec_structs_view(start) + (
                        acc.support + m.support));
                    }
                },
                Some(Err(e)) => {
                    proof {
                        assert(spec_infer_fields(entries@.take(i + 1), req, base, owned) matches Some(Err(f)) && e@ == f);
                    }
                    return Some(Err(e));
                },
                None => {
                    return None;
                },
            }
            i = i + 1;
        }
        assert(entries@.take(n as int) =~= entries@);
        let k = support.len();
        let ghost before_push = support@;
        support.push(StructDef { fields, has_lifetime });
        proof {
            let acc = spec_infer_fields(entries@, req, base, owned).unwrap()->Ok_0;
            assert(spec_structs_view(before_push).len() == before_push.len());
            assert(spec_structs_view(start).len() == start.len());
            assert(support@ =~= before_push.push(support@.last()));
            assert(support@.last()@ == StructModel { fields: acc.fields, has_lifetime: acc.has_lifetime });
            assert(spec_structs_view(support@) =~= spec_structs_view(before_push).push(support@.last()@));
            assert(spec_structs_view(support@) =~= spec_structs_view(start) + acc.support.push(
                StructModel { fields: acc.fields, has_lifetime: acc.has_lifetime },
            ));
        }
        Some(Ok((RustType::Anonymous(k), has_lifetime)))
    } else if str_eq(t, "integer") {
        match schema.str_at("format") {
            None => Some(Ok((RustType::I64, false))),
            Some(f) => if str_eq(f, "int64") {
                Some(Ok((RustType::I64, false)))
            } else if str_eq(f, "int32") {
                Some(Ok((RustType::I32, false)))
            } else {
                Some(Err(InferError::InvalidIntegerFormat))
            },
        }
    } else if str_eq(t, "number") {
        match schema.str_at("format") {
            None => Some(Ok((RustType::F64, false))),
            Some(f) => if str_eq(f, "double") {
                Some(Ok((RustType::F64, false)))
            } else if str_eq(f, "float") {
                Some(Ok((RustType::F32, false)))
            } else {
                Some(Err(InferError::InvalidNumberFormat))
            },
        }
    } else if str_eq(t, "string") {
        match schema.str_at("format") {
            None => Some(text_type(owned)),
            Some(f) => if str_eq(f, "byte") {
                Some(Ok((RustType::Base64, false)))
            } else if str_eq(f, "binary") {
                Some(Ok((RustType::Bytes, true)))
            } else if str_eq(f, "date") {
                Some(Ok((RustType::Date, false)))
            } else if str_eq(f, "date-time") {
                Some(Ok((RustType::DateTime, false)))
            } else {
                Some(text_type(owned))
            },
        }
    } else if str_eq(t, "boolean") {
        match schema.str_at("format") {
            None => Some(Ok((RustType::Bool, false))),
            Some(_) => Some(Err(InferError::UnexpectedBooleanFormat)),
        }
    } else {
        Some(Err(InferError::InvalidType(string_of(t))))
    }
}

/// A prefix of a list of properties that cannot be read, or that fails,
/// decides the whole list.
proof fn lemma_fields_prefix(
    entries: Seq<(YamlNode, YamlNode)>,
    required: Seq<Seq<char>>,
    base: nat,
    k: int,
    owned: bool,
)
    requires
        0 <= k <= entries.len(),
    ensures
        spec_infer_fields(entries.take(k), required, base, owned) is None ==> spec_infer_fields(
            entries,
            required,
            base, owned) is None,
        spec_infer_fields(entries.take(k), required, base, owned) matches Some(Err(e))
            ==> spec_infer_fields(entries, required, base, owned) == Some(
            Err::<FieldsModel, InferErrorModel>(e),
        ),
    decreases entries.len() - k,
{
    if k < entries.len() {
        lemma_fields_prefix(entries.drop_last(), required, base, k, owned);
        assert(entries.drop_last().take(k) =~= entries.take(k));
    } else {
        assert(entries.take(k) =~= entries);
    }
}

/// The type of a value schema, with the supporting structs it needs
/// numbered from zero; `None` where the schema cannot be read.
pub fn try_infer_v3(schema: &YamlNode) -> (res: Option<Result<InferredType, InferError>>)
    ensures
        match (res, spec_infer(*schema, 0)) {
            (Some(Ok(t)), Some(Ok(m))) => t@ == m,
            (Some(Err(e)), Some(Err(f))) => e@ == f,
            (None, None) => true,
            _ => false,
        },
{
    let mut support: Vec<StructDef> = Vec::new();
    match infer_into(schema, &mut support) {
        Some(Ok((ty, has_lifetime))) => {
            assert(spec_structs_view(support@) =~= Seq::<StructModel>::empty() + spec_infer(
                *schema,
                0,
            ).unwrap()->Ok_0.support);
            Some(Ok(InferredType { ty, has_lifetime, support }))
        },
        Some(Err(e)) => Some(Err(e)),
        None => None,
    }
}

/// Every inline object that a type names is among the first `bound`
/// supporting structs.
pub open spec fn spec_refs_below(t: TypeModel, bound: int) -> bool
    decreases t,
{
    match t {
        TypeModel::Anonymous(k) => k < bound,
        TypeModel::Vec(item) => spec_refs_below(*item, bound),
        _ => true,
    }
}

/// Supporting structs numbered from `base` name only structs numbered
/// before them.
pub open spec fn spec_support_ordered(support: Seq<StructModel>, base: nat) -> bool {
    forall|j: int, k: int|
        0 <= j < support.len() && 0 <= k < support[j].fields.len() ==> spec_refs_below(
            #[trigger] support[j].fields[k].ty,
            base + j,
        )
}

proof fn lemma_refs_below_grows(t: TypeModel, a: int, b: int)
    requires
        a <= b,
        spec_refs_below(t, a),
    ensures
        spec_refs_below(t, b),
    decreases t,
{
    if let TypeModel::Vec(item) = t {
        lemma_refs_below_grows(*item, a, b);
    }
}

proof fn lemma_fields_ordered(entries: Seq<(YamlNode, YamlNode)>, required: Seq<Seq<char>>, base: nat, owned: bool)
    ensures
        spec_infer_fields(entries, required, base, owned) matches Some(Ok(acc)) ==> {
            &&& spec_support_ordered(acc.support, base)
            &&& forall|k: int|
                0 <= k < acc.fields.len() ==> spec_refs_below(
                    #[trigger] acc.fields[k].ty,
                    base + acc.support.len() as int,
                )
        },
    decreases entries,
{
    if entries.len() > 0 {
        lemma_fields_ordered(entries.drop_last(), required, base, owned);
        if let Some(Ok(acc)) = spec_infer_fields(entries, required, base, owned) {
            let prev = spec_infer_fields(entries.drop_last(), required, base, owned).unwrap()->Ok_0;
            let at = base + prev.support.len();
            assert(decreases_to!(entries => entries[entries.len() - 1]));
            lemma_infer_ordered(entries.last().1, at, owned);
            let m = spec_infer_as(entries.last().1, at, owned).unwrap()->Ok_0;
            assert(acc.support == prev.support + m.support);
            assert forall|j: int, k: int|
                0 <= j < acc.support.len() && 0 <= k < acc.support[j].fields.len() implies spec_refs_below(
                #[trigger] acc.support[j].fields[k].ty,
                base + j,
            ) by {
                if j < prev.support.len() {
                    assert(acc.support[j] == prev.support[j]);
                } else {
                    assert(acc.support[j] == m.support[j - prev.support.len()]);
                }
            }
            assert forall|k: int| 0 <= k < acc.fields.len() implies spec_refs_below(
                #[trigger] acc.fields[k].ty,
                base + acc.support.len() as int,
            ) by {
                if k < prev.fields.len() {
                    assert(acc.fields[k] == prev.fields[k]);
                    lemma_refs_below_grows(prev.fields[k].ty, at as int, base + acc.support.len() as int);
                }
            }
        }
    }
}

/// The type of a value schema names only supporting structs that it comes
/// with, and each supporting struct names only the structs before it: a
/// struct is always declared after the structs its fields need, and none
/// is missing.
pub proof fn lemma_infer_ordered(schema: YamlNode, base: nat, owned: bool)
    ensures
        spec_infer_as(schema, base, owned) matches Some(Ok(m)) ==> {
            &&& spec_refs_below(m.ty, base + m.support.len() as int)
            &&& spec_support_ordered(m.support, base)
        },
    decreases schema,
{
    if spec_infer_as(schema, base, owned) is Some && spec_infer_as(schema, base, owned).unwrap() is Ok
        && schema.spec_str_at("$ref"@) is None {
        let t = schema.spec_str_at("type"@).unwrap();
        if t == "array"@ {
            let items = schema.spec_get("items"@).unwrap();
            lemma_get_decreases(schema, "items"@);
            lemma_infer_ordered(items, base, owned);
        } else if t == "object"@ {
            let required = spec_required_names(schema).unwrap();
            if let Some(YamlNode::Hash(entries)) = schema.spec_get("properties"@) {
                lemma_get_decreases(schema, "properties"@);
                assert(decreases_to!(schema => entries@));
                lemma_fields_ordered(entries@, required, base, owned);
                let acc = spec_infer_fields(entries@, required, base, owned).unwrap()->Ok_0;
                let m = spec_infer_as(schema, base, owned).unwrap()->Ok_0;
                assert(m.support == acc.support.push(
                    StructModel { fields: acc.fields, has_lifetime: acc.has_lifetime },
                ));
                assert forall|j: int, k: int|
                    0 <= j < m.support.len() && 0 <= k < m.support[j].fields.len() implies spec_refs_below(
                    #[trigger] m.support[j].fields[k].ty,
                    base + j,
                ) by {
                    if j < acc.support.len() {
                        assert(m.support[j] == acc.support[j]);
                    }
                }
            }
        }
    }
}

/// The type `t` names only structs numbered `lo` or later.
pub open spec fn spec_refs_from(t: TypeModel, lo: int) -> bool
    decreases t,
{
    match t {
        TypeModel::Anonymous(k) => k >= lo,
        TypeModel::Vec(item) => spec_refs_from(*item, lo),
        _ => true,
    }
}

/// The type of a value schema whose structs are numbered from `base` names
/// no struct numbered before `base`: an inline object is always one of the
/// structs that this schema itself brings.
pub proof fn lemma_infer_refs_from(schema: YamlNode, base: nat, owned: bool)
    ensures
        spec_infer_as(schema, base, owned) matches Some(Ok(m)) ==> spec_refs_from(m.ty, base as int),
    decreases schema,
{
    if spec_infer_as(schema, base, owned) is Some && spec_infer_as(schema, base, owned).unwrap() is Ok
        && schema.spec_str_at("$ref"@) is None {
        let t = schema.spec_str_at("type"@).unwrap();
        if t == "array"@ {
            let items = schema.spec_get("items"@).unwrap();
            lemma_get_decreases(schema, "items"@);
            lemma_infer_refs_from(items, base, owned);
        }
    }
}

/// The type of a value schema, with the supporting structs it needs
/// numbered from zero.
pub fn infer_v3(schema: &YamlNode) -> (res: Result<InferredType, InferError>)
    requires
        spec_infer(*schema, 0) is Some,
    ensures
        match (res, spec_infer(*schema, 0)) {
            (Ok(x), Some(Ok(m))) => x@ == m,
            (Err(e), Some(Err(f))) => e@ == f,
            _ => false,
        },
{
    match try_infer_v3(schema) {
        Some(res) => res,
        None => {
            proof {
                assert(false);
            }
            Err(InferError::MissingType)
        },
    }
}

/// The model of a type that needs no supporting struct.
pub open spec fn spec_plain(ty: TypeModel, borrows: bool) -> InferredModel {
    InferredModel { ty, has_lifetime: borrows, support: Seq::empty() }
}

/// A `$ref` names the type that its last segment gives, in class case.
pub proof fn lemma_ref_type(schema: YamlNode, base: nat, owned: bool)
    ensures
        schema.spec_str_at("$ref"@) matches Some(reference) ==> spec_infer_as(schema, base, owned)
            == Some(
            Ok::<InferredModel, InferErrorModel>(
                spec_plain(TypeModel::SchemaRef(spec_ref_name(reference)), false),
            ),
        ),
{
}

/// The scalar types by `type` and `format`: an `integer` is `i64` unless its
/// format is `int32`; a `number` is `f64` unless its format is `float`; a
/// `boolean` takes no format; a `string` is base64 bytes, raw bytes, a date
/// or a date-time by its format, and otherwise text, owned or borrowed; a
/// schema without a `type` has none.
pub proof fn lemma_scalar_types(schema: YamlNode, base: nat, owned: bool)
    requires
        schema.spec_str_at("$ref"@) is None,
    ensures
        schema.spec_str_at("type"@) is None ==> spec_infer_as(schema, base, owned) == Some(Err::<InferredModel, InferErrorModel>(InferErrorModel::MissingType)),
        schema.spec_str_at("type"@) == Some("integer"@) && (schema.spec_str_at("format"@) is None || schema.spec_str_at("format"@) == Some("int64"@)) ==> spec_infer_as(schema, base, owned) == Some(Ok::<InferredModel, InferErrorModel>(spec_plain(TypeModel::I64, false))),
        schema.spec_str_at("type"@) == Some("integer"@) && schema.spec_str_at("format"@) == Some("int32"@) ==> spec_infer_as(schema, base, owned) == Some(Ok::<InferredModel, InferErrorModel>(spec_plain(TypeModel::I32, false))),
        schema.spec_str_at("type"@) == Some("integer"@) && schema.spec_str_at("format"@) is Some && schema.spec_str_at("format"@) != Some("int32"@) && schema.spec_str_at("format"@) != Some("int64"@) ==> spec_infer_as(schema, base, owned) == Some(Err::<InferredModel, InferErrorModel>(InferErrorModel::InvalidIntegerFormat)),
        schema.spec_str_at("type"@) == Some("number"@) && (schema.spec_str_at("format"@) is None || schema.spec_str_at("format"@) == Some("double"@)) ==> spec_infer_as(schema, base, owned) == Some(Ok::<InferredModel, InferErrorModel>(spec_plain(TypeModel::F64, false))),
        schema.spec_str_at("type"@) == Some("number"@) && schema.spec_str_at("format"@) == Some("float"@) ==> spec_infer_as(schema, base, owned) == Some(Ok::<InferredModel, InferErrorModel>(spec_plain(TypeModel::F32, false))),
        schema.spec_str_at("type"@) == Some("number"@) && schema.spec_str_at("format"@) is Some && schema.spec_str_at("format"@) != Some("float"@) && schema.spec_str_at("format"@) != Some("double"@) ==> spec_infer_as(schema, base, owned) == Some(Err::<InferredModel, InferErrorModel>(InferErrorModel::InvalidNumberFormat)),
        schema.spec_str_at("type"@) == Some("boolean"@) && schema.spec_str_at("format"@) is None ==> spec_infer_as(schema, base, owned) == Some(Ok::<InferredModel, InferErrorModel>(spec_plain(TypeModel::Bool, false))),
        schema.spec_str_at("type"@) == Some("boolean"@) && schema.spec_str_at("format"@) is Some ==> spec_infer_as(schema, base, owned) == Some(Err::<InferredModel, InferErrorModel>(InferErrorModel::UnexpectedBooleanFormat)),
        schema.spec_str_at("type"@) == Some("string"@) && schema.spec_str_at("format"@) == Some("byte"@) ==> spec_infer_as(schema, base, owned) == Some(Ok::<InferredModel, InferErrorModel>(spec_plain(TypeModel::Base64, false))),
        schema.spec_str_at("type"@) == Some("string"@) && schema.spec_str_at("format"@) == Some("binary"@) ==> spec_infer_as(schema, base, owned) == Some(Ok::<InferredModel, InferErrorModel>(spec_plain(TypeModel::Bytes, true))),
        schema.spec_str_at("type"@) == Some("string"@) && schema.spec_str_at("format"@) == Some("date"@) ==> spec_infer_as(schema, base, owned) == Some(Ok::<InferredModel, InferErrorModel>(spec_plain(TypeModel::Date, false))),
        schema.spec_str_at("type"@) == Some("string"@) && schema.spec_str_at("format"@) == Some("date-time"@) ==> spec_infer_as(schema, base, owned) == Some(Ok::<InferredModel, InferErrorModel>(spec_plain(TypeModel::DateTime, false))),
        schema.spec_str_at("type"@) == Some("string"@) && schema.spec_str_at("format"@) != Some("byte"@) && schema.spec_str_at("format"@) != Some("binary"@) && schema.spec_str_at("format"@) != Some("date"@) && schema.spec_str_at("format"@) != Some("date-time"@) && owned ==> spec_infer_as(schema, base, owned) == Some(Ok::<InferredModel, InferErrorModel>(spec_plain(TypeModel::OwnedString, false))),
        schema.spec_str_at("type"@) == Some("string"@) && schema.spec_str_at("format"@) != Some("byte"@) && schema.spec_str_at("format"@) != Some("binary"@) && schema.spec_str_at("format"@) != Some("date"@) && schema.spec_str_at("format"@) != Some("date-time"@) && !owned ==> spec_infer_as(schema, base, owned) == Some(Ok::<InferredModel, InferErrorModel>(spec_plain(TypeModel::StrRef, true))),
{
    reveal_strlit("array");
    reveal_strlit("object");
    reveal_strlit("integer");
    reveal_strlit("number");
    reveal_strlit("string");
    reveal_strlit("boolean");
    reveal_strlit("int64");
    reveal_strlit("int32");
    reveal_strlit("double");
    reveal_strlit("float");
    reveal_strlit("byte");
    reveal_strlit("binary");
    reveal_strlit("date");
    reveal_strlit("date-time");
    assert("array"@.len() == 5);
    assert("object"@.len() == 6);
    assert("number"@[0] != "object"@[0]);
    assert("string"@[0] != "object"@[0]);
    assert("boolean"@.len() == 7);
    assert("int32"@[3] != "int64"@[3]);
    assert("float"@.len() != "double"@.len());
    assert("integer"@[0] != "number"@[0]);
    assert("string"@[0] != "integer"@[0] && "string"@[0] != "number"@[0]);
    assert("boolean"@[0] != "integer"@[0] && "boolean"@[0] != "number"@[0] && "boolean"@[0] != "string"@[0]);
    assert("byte"@[1] != "binary"@[1]);
    assert("date"@[0] != "byte"@[0] && "date"@[0] != "binary"@[0]);
    assert("date-time"@[0] != "byte"@[0] && "date-time"@[0] != "binary"@[0]);
    assert("date-time"@.len() != "date"@.len());
}


proof fn lemma_fields_per_property(entries: Seq<(YamlNode, YamlNode)>, required: Seq<Seq<char>>, base: nat, owned: bool)
    ensures
        spec_infer_fields(entries, required, base, owned) matches Some(Ok(acc)) ==> {
            &&& acc.fields.len() == entries.len()
            &&& forall|i: int| 0 <= i < entries.len() ==> {
                &&& entries[i].0.spec_as_str() == Some((#[trigger] acc.fields[i]).name)
                &&& acc.fields[i].ident == spec_to_snake_case(acc.fields[i].name)
                &&& acc.fields[i].required == required.contains(acc.fields[i].name)
            }
        },
    decreases entries.len(),
{
    if entries.len() > 0 {
        lemma_fields_per_property(entries.drop_last(), required, base, owned);
        if let Some(Ok(acc)) = spec_infer_fields(entries, required, base, owned) {
            let prev = spec_infer_fields(entries.drop_last(), required, base, owned).unwrap()->Ok_0;
            assert forall|i: int| 0 <= i < entries.len() implies {
                &&& entries[i].0.spec_as_str() == Some((#[trigger] acc.fields[i]).name)
                &&& acc.fields[i].ident == spec_to_snake_case(acc.fields[i].name)
                &&& acc.fields[i].required == required.contains(acc.fields[i].name)
            } by {
                if i < entries.len() - 1 {
                    assert(acc.fields[i] == prev.fields[i]);
                    assert(entries[i] == entries.drop_last()[i]);
                }
            }
        }
    }
}

/// An `object` becomes a new supporting struct, numbered after the structs
/// that its properties need, with one field per property in the schema's
/// order: named by the property, its identifier the name in snake case,
/// and required exactly when the name is listed under `required`.
pub proof fn lemma_object_type(schema: YamlNode, base: nat, owned: bool)
    requires
        schema.spec_str_at("$ref"@) is None,
        schema.spec_str_at("type"@) == Some("object"@),
    ensures
        spec_infer_as(schema, base, owned) matches Some(Ok(m)) ==> spec_required_names(schema) matches Some(required)
            && schema.spec_get("properties"@) matches Some(YamlNode::Hash(entries)) && {
            &&& m.support.len() > 0
            &&& m.ty == TypeModel::Anonymous((base + m.support.len() - 1) as nat)
            &&& m.support.last().has_lifetime == m.has_lifetime
            &&& m.support.last().fields.len() == entries@.len()
            &&& forall|i: int| 0 <= i < entries@.len() ==> {
                &&& entries@[i].0.spec_as_str() == Some((#[trigger] m.support.last().fields[i]).name)
                &&& m.support.last().fields[i].ident == spec_to_snake_case(m.support.last().fields[i].name)
                &&& m.support.last().fields[i].required == required.contains(m.support.last().fields[i].name)
            }
        },
{
    reveal_strlit("array");
    reveal_strlit("object");
    assert("array"@.len() != "object"@.len());
    if let Some(Ok(m)) = spec_infer_as(schema, base, owned) {
        let required = spec_required_names(schema).unwrap();
        if let Some(YamlNode::Hash(entries)) = schema.spec_get("properties"@) {
            lemma_fields_per_property(entries@, required, base, owned);
        }
    }
}

/// An `array` is a vector of its items' type, with their supporting
/// structs; an array without `items` has no type.
pub proof fn lemma_array_type(schema: YamlNode, base: nat, owned: bool)
    requires
        schema.spec_str_at("$ref"@) is None,
        schema.spec_str_at("type"@) == Some("array"@),
    ensures
        schema.spec_get("items"@) is None ==> spec_infer_as(schema, base, owned) == Some(
            Err::<InferredModel, InferErrorModel>(InferErrorModel::MissingType),
        ),
        schema.spec_get("items"@) matches Some(items) ==> match (
            spec_infer_as(schema, base, owned),
            spec_infer_as(items, base, owned),
        ) {
            (Some(Ok(m)), Some(Ok(i))) => m.ty == TypeModel::Vec(Box::new(i.ty)) && m.support
                == i.support && m.has_lifetime == i.has_lifetime,
            (Some(Err(e)), Some(Err(f))) => e == f,
            (None, None) => true,
            _ => false,
        },
{
    reveal_strlit("array");
}

} // verus!
