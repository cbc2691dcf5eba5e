//! The responses of an operation: one variant per documented status, sorted
//! into those of successful and failed exchanges.
use vstd::prelude::*;

use crate::text::i64_to_decimal;
use crate::text::push_str;
use crate::text::spec_int_decimal;
use crate::text::string_of;
use crate::text::str_eq;
use crate::yaml::YamlNode;
use super::datatype::infer_into;
use super::datatype::lemma_infer_ordered;
use super::datatype::lemma_infer_refs_from;
use super::datatype::spec_infer;
use super::datatype::spec_refs_below;
use super::datatype::spec_refs_from;
use super::types::InferError;
use super::types::InferErrorModel;
use super::types::RustType;
use super::types::StructDef;
use super::types::StructModel;
use super::types::TypeModel;
use super::types::spec_structs_view;

verus! {

/// The status given to a response key that is not a number.
pub const UNSPECIFIED_CODE: u16 = 999;

/// A response key's status and variant name: a number names itself as
/// `Status<number>`; anything else is the unspecified code.
pub open spec fn spec_parse_response_key(key: YamlNode) -> (u16, Seq<char>) {
    match key.spec_as_i64() {
        Some(code) => (code as u16, "Status"@ + spec_int_decimal(code as int)),
        None => (UNSPECIFIED_CODE, "UnspecifiedCode"@),
    }
}

pub fn parse_response_key(key: &YamlNode) -> (res: (u16, String))
    ensures
        res.0 == spec_parse_response_key(*key).0,
        res.1@ == spec_parse_response_key(*key).1,
{
    match key.as_i64() {
        Some(code) => {
            let mut name = string_of("Status");
            let digits = i64_to_decimal(code);
            push_str(&mut name, digits.as_str());
            (code as u16, name)
        },
        None => (UNSPECIFIED_CODE, string_of("UnspecifiedCode")),
    }
}

/// The JSON schema of a response or request body:
/// `content` / `application/json` / `schema`.
pub open spec fn spec_json_schema(node: YamlNode) -> Option<YamlNode> {
    match node.spec_get("content"@) {
        Some(content) => match content.spec_get("application/json"@) {
            Some(json) => json.spec_get("schema"@),
            None => None,
        },
        None => None,
    }
}

pub fn json_schema(node: &YamlNode) -> (res: Option<&YamlNode>)
    ensures
        crate::yaml::spec_deref(res) == spec_json_schema(*node),
{
    match node.get("content") {
        Some(content) => match content.get("application/json") {
            Some(json) => json.get("schema"),
            None => None,
        },
        None => None,
    }
}

/// One documented response.
pub struct VariantModel {
    pub code: u16,
    pub name: Seq<char>,
    pub model: TypeModel,
}

/// The documented responses, sorted.
pub struct ResponsesModel {
    pub ok: Seq<VariantModel>,
    pub err: Seq<VariantModel>,
    /// The schema documents a `default` response, which then takes the
    /// place of the catch-all variant for undocumented failures.
    pub has_default: bool,
    pub support: Seq<StructModel>,
}

/// One documented response: its status, variant name and body type.
#[derive(Debug)]
pub struct ResponseVariant {
    pub code: u16,
    pub name: String,
    pub model: RustType,
}

impl View for ResponseVariant {
    type V = VariantModel;

    open spec fn view(&self) -> VariantModel {
        VariantModel { code: self.code, name: self.name@, model: self.model@ }
    }
}

/// The documented responses of an operation.
#[derive(Debug)]
pub struct Responses {
    /// Statuses below 400.
    pub ok: Vec<ResponseVariant>,
    /// Statuses from 400 on, and the unspecified code.
    pub err: Vec<ResponseVariant>,
    pub has_default: bool,
    pub support: Vec<StructDef>,
}

pub open spec fn spec_variants_view(v: Seq<ResponseVariant>) -> Seq<VariantModel> {
    v.map_values(|r: ResponseVariant| r@)
}

impl View for Responses {
    type V = ResponsesModel;

    open spec fn view(&self) -> ResponsesModel {
        ResponsesModel {
            ok: spec_variants_view(self.ok@),
            err: spec_variants_view(self.err@),
            has_default: self.has_default,
            support: spec_structs_view(self.support@),
        }
    }
}

/// The body type of a response whose supporting structs are numbered from
/// `base`: `()` when it documents no JSON object schema.
pub open spec fn spec_body_type(response: YamlNode, base: nat) -> Option<
    Result<(TypeModel, Seq<StructModel>), InferErrorModel>,
> {
    match spec_json_schema(response) {
        Some(schema) => if schema.spec_is_hash() {
            match spec_infer(schema, base) {
                Some(Ok(m)) => Some(Ok((m.ty, m.support))),
                Some(Err(e)) => Some(Err(e)),
                None => None,
            }
        } else {
            Some(Ok((TypeModel::Unit, Seq::empty())))
        },
        None => Some(Ok((TypeModel::Unit, Seq::empty()))),
    }
}

pub open spec fn spec_empty_responses() -> ResponsesModel {
    ResponsesModel { ok: Seq::empty(), err: Seq::empty(), has_default: false, support: Seq::empty() }
}

/// The responses of the entries of a `responses` map, in order.
pub open spec fn spec_infer_entries(entries: Seq<(YamlNode, YamlNode)>, base: nat) -> Option<
    Result<ResponsesModel, InferErrorModel>,
>
    decreases entries.len(),
{
    if entries.len() == 0 {
        Some(Ok(spec_empty_responses()))
    } else {
        match spec_infer_entries(entries.drop_last(), base) {
            Some(Ok(acc)) => {
                let (code, name) = spec_parse_response_key(entries.last().0);
                match spec_body_type(entries.last().1, base + acc.support.len()) {
                    Some(Ok((model, support))) => {
                        let variant = VariantModel { code, name, model };
                        Some(
                            Ok(
                                ResponsesModel {
                                    ok: if code < 400 {
                                        acc.ok.push(variant)
                                    } else {
                                        acc.ok
                                    },
                                    err: if code < 400 {
                                        acc.err
                                    } else {
                                        acc.err.push(variant)
                                    },
                                    has_default: acc.has_default || entries.last().0.spec_is_string(
                                        "default"@,
                                    ),
                                    support: acc.support + support,
                                },
                            ),
                        )
                    },
                    Some(Err(e)) => Some(Err(e)),
                    None => None,
                }
            },
            other => other,
        }
    }
}

/// The responses of an operation: undefined (`None`) unless `responses` is
/// a map whose schemas can be inferred.
pub open spec fn spec_infer_responses(responses: YamlNode, base: nat) -> Option<
    Result<ResponsesModel, InferErrorModel>,
> {
    match responses {
        YamlNode::Hash(entries) => spec_infer_entries(entries@, base),
        _ => None,
    }
}

proof fn lemma_entries_prefix(entries: Seq<(YamlNode, YamlNode)>, base: nat, k: int)
    requires
        0 <= k <= entries.len(),
    ensures
        spec_infer_entries(entries.take(k), base) is None ==> spec_infer_entries(entries, base)
            is None,
        spec_infer_entries(entries.take(k), base) matches Some(Err(e)) ==> spec_infer_entries(
            entries,
            base,
        ) == Some(Err::<ResponsesModel, InferErrorModel>(e)),
    decreases entries.len() - k,
{
    if k < entries.len() {
        lemma_entries_prefix(entries.drop_last(), base, k);
        assert(entries.drop_last().take(k) =~= entries.take(k));
    } else {
        assert(entries.take(k) =~= entries);
    }
}

/// The body type of a response, pushing the supporting structs it needs;
/// `None` where its schema cannot be read.
pub(crate) fn body_type_into(response: &YamlNode, support: &mut Vec<StructDef>) -> (res: Option<
    Result<RustType, InferError>,
>)
    ensures
        match (res, spec_body_type(*response, old(support)@.len() as nat)) {
            (Some(Ok(ty)), Some(Ok((m, s)))) => {
                &&& ty@ == m
                &&& spec_structs_view(final(support)@) == spec_structs_view(old(support)@) + s
            },
            (Some(Err(e)), Some(Err(f))) => e@ == f,
            (None, None) => true,
            _ => false,
        },
{
    assert(spec_structs_view(support@) =~= spec_structs_view(support@) + Seq::<
        StructModel,
    >::empty());
    match json_schema(response) {
        Some(schema) => match schema.as_hash() {
            Some(_) => match infer_into(schema, support) {
                Some(Ok((ty, _))) => Some(Ok(ty)),
                Some(Err(e)) => Some(Err(e)),
                None => None,
            },
            None => Some(Ok(RustType::Unit)),
        },
        None => Some(Ok(RustType::Unit)),
    }
}

/// Sorts the documented responses, pushing the supporting structs they
/// need; `None` where a response cannot be read.
pub(crate) fn infer_responses_into(
    responses: &YamlNode,
    ok: &mut Vec<ResponseVariant>,
    err: &mut Vec<ResponseVariant>,
    support: &mut Vec<StructDef>,
) -> (res: Option<Result<bool, InferError>>)
    ensures
        match (res, spec_infer_responses(*responses, old(support)@.len() as nat)) {
            (Some(Ok(has_default)), Some(Ok(m))) => {
                &&& spec_variants_view(final(ok)@) == spec_variants_view(old(ok)@) + m.ok
                &&& spec_variants_view(final(err)@) == spec_variants_view(old(err)@) + m.err
                &&& has_default == m.has_default
                &&& spec_structs_view(final(support)@) == spec_structs_view(old(support)@)
                    + m.support
            },
            (Some(Err(e)), Some(Err(f))) => e@ == f,
            (None, None) => true,
            _ => false,
        },
{
    let entries = match responses {
        YamlNode::Hash(entries) => entries,
        _ => {
            return None;
        },
    };
    let ghost base = support@.len() as nat;
    let ghost ok0 = ok@;
    let ghost err0 = err@;
    let ghost support0 = support@;
    let mut has_default = false;
    let n = entries.len();
    let mut i: usize = 0;
    assert(entries@.take(0) =~= Seq::<(YamlNode, YamlNode)>::empty());
    assert(spec_variants_view(ok@) =~= spec_variants_view(ok0) + Seq::<VariantModel>::empty());
    assert(spec_variants_view(err@) =~= spec_variants_view(err0) + Seq::<VariantModel>::empty());
    assert(spec_structs_view(support@) =~= spec_structs_view(support0) + Seq::<
        StructModel,
    >::empty());
    while i < n
        invariant
            n == entries@.len(),
            0 <= i <= n,
            base == support0.len(),
            base == old(support)@.len(),
            ok0 == old(ok)@,
            err0 == old(err)@,
            support0 == old(support)@,
            spec_infer_responses(*responses, base) == spec_infer_entries(entries@, base),
            spec_infer_entries(entries@.take(i as int), base) matches Some(Ok(acc)) && {
                &&& spec_variants_view(ok@) == spec_variants_view(ok0) + acc.ok
                &&& spec_variants_view(err@) == spec_variants_view(err0) + acc.err
                &&& has_default == acc.has_default
                &&& spec_structs_view(support@) == spec_structs_view(support0) + acc.support
            },
        decreases n - i,
    {
        proof {
            lemma_entries_prefix(entries@, base, i as int + 1);
            assert(entries@.take(i + 1).drop_last() =~= entries@.take(i as int));
            assert(entries@.take(i + 1).last() == entries@[i as int]);
        }
        let ghost acc = spec_infer_entries(entries@.take(i as int), base).unwrap()->Ok_0;
        assert(spec_structs_view(support@).len() == support@.len());
        assert(spec_structs_view(support0).len() == support0.len());
        let (code, name) = parse_response_key(&entries[i].0);
        let ghost ok_before = ok@;
        let ghost err_before = err@;
        match body_type_into(&entries[i].1, support) {
            Some(Ok(model)) => {
                let is_default = match &entries[i].0 {
                    YamlNode::String(s) => str_eq(s.as_str(), "default"),
                    _ => false,
                };
                has_default = has_default || is_default;
                let variant = ResponseVariant { code, name, model };
                if code < 400 {
                    ok.push(variant);
                    proof {
                        assert(spec_variants_view(ok@) =~= spec_variants_view(ok_before).push(
                            ok@.last()@,
                        ));
                    }
                } else {
                    err.push(variant);
                    proof {
                        assert(spec_variants_view(err@) =~= spec_variants_view(err_before).push(
                            err@.last()@,
                        ));
                    }
                }
                proof {
                    let (m, s) = spec_body_type(entries@[i as int].1, base + acc.support.len()).unwrap()->Ok_0;
                    assert(spec_structs_view(support@) =~= spec_structs_view(support0) + (acc.support
                        + s));
                    let step = spec_infer_entries(entries@.take(i + 1), base).unwrap()->Ok_0;
                    assert(spec_variants_view(ok@) =~= spec_variants_view(ok0) + step.ok);
                    assert(spec_variants_view(err@) =~= spec_variants_view(err0) + step.err);
                }
            },
            Some(Err(e)) => {
                return Some(Err(e));
            },
            None => {
                return None;
            },
        }
        i = i + 1;
    }
    assert(entries@.take(n as int) =~= entries@);
    Some(Ok(has_default))
}

/// The documented responses of an operation, sorted by status, with the
/// supporting structs their bodies need; `None` unless `responses` is a
/// map of responses that can be read.
pub fn try_infer_v3(responses: &YamlNode) -> (res: Option<Result<Responses, InferError>>)
    ensures
        match (res, spec_infer_responses(*responses, 0)) {
            (Some(Ok(r)), Some(Ok(m))) => r@ == m,
            (Some(Err(e)), Some(Err(f))) => e@ == f,
            (None, None) => true,
            _ => false,
        },
{
    let mut ok: Vec<ResponseVariant> = Vec::new();
    let mut err: Vec<ResponseVariant> = Vec::new();
    let mut support: Vec<StructDef> = Vec::new();
    match infer_responses_into(responses, &mut ok, &mut err, &mut support) {
        Some(Ok(has_default)) => {
            let ghost m = spec_infer_responses(*responses, 0).unwrap()->Ok_0;
            assert(spec_variants_view(ok@) =~= m.ok);
            assert(spec_variants_view(err@) =~= m.err);
            assert(spec_structs_view(support@) =~= m.support);
            Some(Ok(Responses { ok, err, has_default, support }))
        },
        Some(Err(e)) => Some(Err(e)),
        None => None,
    }
}

/// Every documented response becomes a variant: those with a status below
/// 400 among the successes, the others among the failures, each list in
/// the order of the schema.
pub proof fn lemma_responses_partition(entries: Seq<(YamlNode, YamlNode)>, base: nat)
    ensures
        spec_infer_entries(entries, base) matches Some(Ok(m)) ==> {
            &&& m.ok.len() + m.err.len() == entries.len()
            &&& forall|i: int| 0 <= i < m.ok.len() ==> (#[trigger] m.ok[i]).code < 400
            &&& forall|i: int| 0 <= i < m.err.len() ==> (#[trigger] m.err[i]).code >= 400
        },
    decreases entries.len(),
{
    if entries.len() > 0 {
        lemma_responses_partition(entries.drop_last(), base);
    }
}

/// The responses document a `default` response exactly when one of the
/// keys is the string `default`.
pub proof fn lemma_responses_default(entries: Seq<(YamlNode, YamlNode)>, base: nat)
    ensures
        spec_infer_entries(entries, base) matches Some(Ok(m)) ==> (m.has_default <==> exists|i: int|
            0 <= i < entries.len() && (#[trigger] entries[i]).0.spec_is_string("default"@)),
    decreases entries.len(),
{
    if entries.len() > 0 {
        let init = entries.drop_last();
        lemma_responses_default(init, base);
        if let Some(Ok(m)) = spec_infer_entries(entries, base) {
            let acc = spec_infer_entries(init, base).unwrap()->Ok_0;
            let n = init.len() as int;
            if m.has_default && !acc.has_default {
                assert(entries[n].0.spec_is_string("default"@));
            }
            if acc.has_default {
                let i = choose|i: int| 0 <= i < init.len() && (#[trigger] init[i]).0.spec_is_string("default"@);
                assert(entries[i] == init[i]);
            }
            if exists|i: int| 0 <= i < entries.len() && (#[trigger] entries[i]).0.spec_is_string("default"@) {
                let i = choose|i: int| 0 <= i < entries.len() && (#[trigger] entries[i]).0.spec_is_string("default"@);
                if i < n {
                    assert(entries[i] == init[i]);
                }
            }
        }
    }
}

/// The response at position `k` becomes one variant, added after those of
/// the responses before it and among the successes exactly when its status
/// is below 400; its body type names only the supporting structs that its
/// own schema brings, numbered after the structs of the earlier responses,
/// and a response without a JSON object schema has the unit body.
pub proof fn lemma_response_variant_structs(entries: Seq<(YamlNode, YamlNode)>, base: nat, k: int)
    requires
        0 <= k < entries.len(),
        spec_infer_entries(entries, base) is Some,
        spec_infer_entries(entries, base).unwrap() is Ok,
    ensures
        spec_infer_entries(entries.take(k), base) is Some,
        spec_infer_entries(entries.take(k), base).unwrap() is Ok,
        spec_infer_entries(entries.take(k + 1), base) is Some,
        spec_infer_entries(entries.take(k + 1), base).unwrap() is Ok,
        ({
            let before = spec_infer_entries(entries.take(k), base).unwrap()->Ok_0;
            let after = spec_infer_entries(entries.take(k + 1), base).unwrap()->Ok_0;
            let code = spec_parse_response_key(entries[k].0).0;
            let added = if code < 400 {
                after.ok.last()
            } else {
                after.err.last()
            };
            &&& after.support.len() >= before.support.len()
            &&& after.support.take(before.support.len() as int) == before.support
            &&& code < 400 ==> after.ok.drop_last() == before.ok && after.err == before.err
            &&& code >= 400 ==> after.err.drop_last() == before.err && after.ok == before.ok
            &&& code < 400 ==> after.ok.len() > 0
            &&& code >= 400 ==> after.err.len() > 0
            &&& added.code == code
            &&& added.name == spec_parse_response_key(entries[k].0).1
            &&& spec_refs_from(added.model, base + before.support.len() as int)
            &&& spec_refs_below(added.model, base + after.support.len() as int)
            &&& !(spec_json_schema(entries[k].1) matches Some(schema) && schema.spec_is_hash())
                ==> added.model == TypeModel::Unit && after.support == before.support
        }),
{
    lemma_entries_prefix(entries, base, k);
    lemma_entries_prefix(entries, base, k + 1);
    let prefix = entries.take(k + 1);
    assert(prefix.drop_last() =~= entries.take(k));
    assert(prefix.last() == entries[k]);
    let before = spec_infer_entries(entries.take(k), base).unwrap()->Ok_0;
    let after = spec_infer_entries(prefix, base).unwrap()->Ok_0;
    let at = base + before.support.len();
    match spec_json_schema(entries[k].1) {
        Some(schema) => if schema.spec_is_hash() {
            lemma_infer_refs_from(schema, at, false);
            lemma_infer_ordered(schema, at, false);
        },
        None => {},
    }
    assert(after.support.take(before.support.len() as int) =~= before.support);
    let code = spec_parse_response_key(entries[k].0).0;
    if code < 400 {
        assert(after.ok.drop_last() =~= before.ok);
    } else {
        assert(after.err.drop_last() =~= before.err);
    }
}

/// The variant of a body enum that a response is decoded into.
#[derive(Debug, PartialEq, Eq, Structural)]
pub enum BodyVariant {
    /// The documented response with that place in its list, its body
    /// decoded as that response's type.
    Documented(usize),
    /// `UnspecifiedCode` holding the body decoded as the `default`
    /// response's type, for a failure that is not documented otherwise.
    Default,
    /// `UnspecifiedCode` holding the body as text: a status that no response
    /// documents.
    UnspecifiedText,
    /// `MalformedJSON` holding the body as text: it does not decode as the
    /// type that its status calls for.
    MalformedJson,
    /// `NetworkFailure`: no response came back.
    NetworkFailure,
}

/// The first documented response with the status `code`, if any.
pub open spec fn spec_first_code(variants: Seq<VariantModel>, code: u16) -> Option<int>
    decreases variants.len(),
{
    if variants.len() == 0 {
        None
    } else {
        match spec_first_code(variants.drop_last(), code) {
            Some(i) => Some(i),
            None => if variants.last().code == code {
                Some(variants.len() - 1)
            } else {
                None
            },
        }
    }
}

/// How a successful response is decoded: as the first success documented
/// with its status when its body decodes as that success's type
/// (`decodes`), as malformed JSON when it does not, and as unspecified text
/// when no success documents its status.
pub open spec fn spec_ok_body_variant(responses: ResponsesModel, status: u16, decodes: bool) -> BodyVariant {
    match spec_first_code(responses.ok, status) {
        Some(i) => if decodes {
            BodyVariant::Documented(i as usize)
        } else {
            BodyVariant::MalformedJson
        },
        None => BodyVariant::UnspecifiedText,
    }
}

/// How a failed response, or its absence, is decoded: as the first failure
/// documented with its status; else, when there is a `default` response,
/// as that response's type; else as unspecified text. A body that does not
/// decode as the type its status calls for (`decodes`) is malformed JSON.
pub open spec fn spec_err_body_variant(
    responses: ResponsesModel,
    status: Option<u16>,
    decodes: bool,
) -> BodyVariant {
    match status {
        None => BodyVariant::NetworkFailure,
        Some(code) => match spec_first_code(responses.err, code) {
            Some(i) => if decodes {
                BodyVariant::Documented(i as usize)
            } else {
                BodyVariant::MalformedJson
            },
            None => if responses.has_default {
                if decodes {
                    BodyVariant::Default
                } else {
                    BodyVariant::MalformedJson
                }
            } else {
                BodyVariant::UnspecifiedText
            },
        },
    }
}

/// A variant of a generated body enum.
#[derive(Debug, PartialEq, Eq, Structural)]
pub enum VariantShape {
    /// The documented response with that place in its list.
    Documented(usize),
    /// `UnspecifiedCode(String)`.
    UnspecifiedText,
    /// `MalformedJSON(String)`.
    MalformedJson,
    /// `NetworkFailure()`.
    NetworkFailure,
}

/// One variant for each documented response, in order.
pub open spec fn spec_documented_shapes(n: nat) -> Seq<VariantShape> {
    Seq::new(n, |i: int| VariantShape::Documented(i as usize))
}

/// The variants of the success enum: the documented successes, then
/// `MalformedJSON` and `UnspecifiedCode`.
pub open spec fn spec_ok_enum(responses: ResponsesModel) -> Seq<VariantShape> {
    spec_documented_shapes(responses.ok.len()) + seq![
        VariantShape::MalformedJson,
        VariantShape::UnspecifiedText,
    ]
}

/// The variants of the failure enum: the documented failures, then
/// `UnspecifiedCode` holding text unless a `default` response gives it a
/// type, then `MalformedJSON` and `NetworkFailure`.
pub open spec fn spec_err_enum(responses: ResponsesModel) -> Seq<VariantShape> {
    spec_documented_shapes(responses.err.len()) + (if responses.has_default {
        Seq::empty()
    } else {
        seq![VariantShape::UnspecifiedText]
    }) + seq![VariantShape::MalformedJson, VariantShape::NetworkFailure]
}

/// One variant for each of `n` documented responses.
fn documented_shapes(n: usize) -> (v: Vec<VariantShape>)
    ensures
        v@ == spec_documented_shapes(n as nat),
{
    let mut v: Vec<VariantShape> = Vec::new();
    let mut i: usize = 0;
    while i < n
        invariant
            0 <= i <= n,
            v@ == spec_documented_shapes(i as nat),
        decreases n - i,
    {
        v.push(VariantShape::Documented(i));
        assert(v@ =~= spec_documented_shapes((i + 1) as nat));
        i = i + 1;
    }
    v
}

/// The variants of the success enum of an operation.
pub fn ok_enum(responses: &Responses) -> (v: Vec<VariantShape>)
    ensures
        v@ == spec_ok_enum(responses@),
{
    let mut v = documented_shapes(responses.ok.len());
    assert(spec_variants_view(responses.ok@).len() == responses.ok@.len());
    v.push(VariantShape::MalformedJson);
    v.push(VariantShape::UnspecifiedText);
    assert(v@ =~= spec_ok_enum(responses@));
    v
}

/// The variants of the failure enum of an operation.
pub fn err_enum(responses: &Responses) -> (v: Vec<VariantShape>)
    ensures
        v@ == spec_err_enum(responses@),
{
    let mut v = documented_shapes(responses.err.len());
    assert(spec_variants_view(responses.err@).len() == responses.err@.len());
    if !responses.has_default {
        v.push(VariantShape::UnspecifiedText);
    }
    v.push(VariantShape::MalformedJson);
    v.push(VariantShape::NetworkFailure);
    assert(v@ =~= spec_err_enum(responses@));
    v
}

proof fn lemma_first_code_prefix(variants: Seq<VariantModel>, code: u16, k: int)
    requires
        0 <= k < variants.len(),
        spec_first_code(variants.take(k), code) is None,
        variants[k].code == code,
    ensures
        spec_first_code(variants, code) == Some(k),
    decreases variants.len() - k,
{
    assert(variants.take(k + 1).drop_last() =~= variants.take(k));
    if k + 1 < variants.len() {
        lemma_first_code_extend(variants, k + 1, code);
    } else {
        assert(variants.take(k + 1) =~= variants);
    }
}

proof fn lemma_first_code_extend(variants: Seq<VariantModel>, k: int, code: u16)
    requires
        0 <= k <= variants.len(),
        spec_first_code(variants.take(k), code) is Some,
    ensures
        spec_first_code(variants, code) == spec_first_code(variants.take(k), code),
    decreases variants.len() - k,
{
    if k < variants.len() {
        assert(variants.take(k + 1).drop_last() =~= variants.take(k));
        lemma_first_code_extend(variants, k + 1, code);
    } else {
        assert(variants.take(k) =~= variants);
    }
}

/// The first of `variants` documented with the status `code`.
fn first_code(variants: &Vec<ResponseVariant>, code: u16) -> (res: Option<usize>)
    ensures
        match res {
            Some(i) => spec_first_code(spec_variants_view(variants@), code) == Some(i as int),
            None => spec_first_code(spec_variants_view(variants@), code) is None,
        },
{
    let ghost view = spec_variants_view(variants@);
    let n = variants.len();
    let mut i: usize = 0;
    assert(view.take(0) =~= Seq::<VariantModel>::empty());
    while i < n
        invariant
            n == variants@.len(),
            view == spec_variants_view(variants@),
            view.len() == n,
            0 <= i <= n,
            spec_first_code(view.take(i as int), code) is None,
        decreases n - i,
    {
        assert(view.take(i + 1).drop_last() =~= view.take(i as int));
        if variants[i].code == code {
            proof {
                lemma_first_code_prefix(view, code, i as int);
            }
            return Some(i);
        }
        i = i + 1;
    }
    assert(view.take(n as int) =~= view);
    None
}

/// The variant that a successful response with status `status` is decoded
/// into; `decodes` is whether its body decodes as the type that the status
/// calls for.
pub fn ok_body_variant(responses: &Responses, status: u16, decodes: bool) -> (v: BodyVariant)
    ensures
        v == spec_ok_body_variant(responses@, status, decodes),
{
    match first_code(&responses.ok, status) {
        Some(i) => if decodes {
            BodyVariant::Documented(i)
        } else {
            BodyVariant::MalformedJson
        },
        None => BodyVariant::UnspecifiedText,
    }
}

/// The variant that a failed response with status `status`, or no response
/// (`None`), is decoded into; `decodes` is whether its body decodes as the
/// type that the status calls for.
pub fn err_body_variant(responses: &Responses, status: Option<u16>, decodes: bool) -> (v: BodyVariant)
    ensures
        v == spec_err_body_variant(responses@, status, decodes),
{
    match status {
        None => BodyVariant::NetworkFailure,
        Some(code) => match first_code(&responses.err, code) {
            Some(i) => if decodes {
                BodyVariant::Documented(i)
            } else {
                BodyVariant::MalformedJson
            },
            None => if responses.has_default {
                if decodes {
                    BodyVariant::Default
                } else {
                    BodyVariant::MalformedJson
                }
            } else {
                BodyVariant::UnspecifiedText
            },
        },
    }
}

/// A response is decoded as a documented variant exactly when that variant
/// has its status, and as no documented variant when none has: each status
/// of the schema has its own variant, and every other status is kept.
pub proof fn lemma_body_variant_matches_status(variants: Seq<VariantModel>, code: u16)
    ensures
        spec_first_code(variants, code) matches Some(i) ==> 0 <= i < variants.len()
            && variants[i].code == code && forall|j: int| 0 <= j < i ==> variants[j].code != code,
        spec_first_code(variants, code) is None ==> forall|j: int|
            0 <= j < variants.len() ==> (#[trigger] variants[j]).code != code,
    decreases variants.len(),
{
    if variants.len() > 0 {
        lemma_body_variant_matches_status(variants.drop_last(), code);
        assert forall|j: int| 0 <= j < variants.len() - 1 implies variants.drop_last()[j]
            == variants[j] by {}
    }
}

/// The documented responses of an operation, sorted by status, with the
/// supporting structs their bodies need.
pub fn infer_v3(responses: &YamlNode) -> (res: Result<Responses, InferError>)
    requires
        spec_infer_responses(*responses, 0) is Some,
    ensures
        match (res, spec_infer_responses(*responses, 0)) {
            (Ok(x), Some(Ok(m))) => x@ == m,
            (Err(e), Some(Err(f))) => e@ == f,
            _ => false,
        },
{
    match try_infer_v3(responses) {
        Some(res) => res,
        None => {
            proof {
                assert(false);
            }
            Err(InferError::MissingType)
        },
    }
}

/// Both body enums always have a variant for a body that is not valid
/// JSON, the success enum one for an undocumented status, and the failure
/// enum one for a missing response and, unless a `default` response takes
/// its place, one for an undocumented status; each documented response has
/// its own variant, in order, before them.
pub proof fn lemma_fixed_variants(responses: ResponsesModel)
    ensures
        spec_ok_enum(responses).len() == responses.ok.len() + 2,
        spec_ok_enum(responses).contains(VariantShape::MalformedJson),
        spec_ok_enum(responses).contains(VariantShape::UnspecifiedText),
        spec_err_enum(responses).contains(VariantShape::MalformedJson),
        spec_err_enum(responses).contains(VariantShape::NetworkFailure),
        !responses.has_default ==> spec_err_enum(responses).contains(VariantShape::UnspecifiedText),
        forall|i: int| 0 <= i < responses.ok.len() ==> spec_ok_enum(responses)[i] == VariantShape::Documented(i as usize),
        forall|i: int| 0 <= i < responses.err.len() ==> spec_err_enum(responses)[i] == VariantShape::Documented(i as usize),
{
    let ok = spec_ok_enum(responses);
    let err = spec_err_enum(responses);
    let n: int = responses.ok.len() as int;
    let m: int = responses.err.len() as int;
    assert(ok[n] == VariantShape::MalformedJson);
    assert(ok[n + 1] == VariantShape::UnspecifiedText);
    if responses.has_default {
        assert(err[m] == VariantShape::MalformedJson);
        assert(err[m + 1] == VariantShape::NetworkFailure);
    } else {
        assert(err[m] == VariantShape::UnspecifiedText);
        assert(err[m + 1] == VariantShape::MalformedJson);
        assert(err[m + 2] == VariantShape::NetworkFailure);
    }
}

} // verus!
