//! Security schemes and the security requirements of operations.
use vstd::prelude::*;

use crate::naming::spec_to_camel_case;
use crate::naming::spec_to_class_case;
use crate::naming::spec_to_title_case;
use crate::naming::to_camel_case;
use crate::naming::to_class_case;
use crate::naming::to_title_case;
use crate::text::str_eq;
use crate::text::string_of;
use crate::yaml::YamlNode;
use super::types::InferError;
use super::types::InferErrorModel;

verus! {

/// How a security scheme authenticates.
#[derive(Debug, PartialEq, Eq)]
pub enum SchemeKind {
    /// HTTP Basic: a user name and a password.
    Basic,
    /// An API key, sent in the header of that name.
    ApiKey(String),
}

pub enum SchemeKindModel {
    Basic,
    ApiKey(Seq<char>),
}

impl View for SchemeKind {
    type V = SchemeKindModel;

    open spec fn view(&self) -> SchemeKindModel {
        match self {
            SchemeKind::Basic => SchemeKindModel::Basic,
            SchemeKind::ApiKey(h) => SchemeKindModel::ApiKey(h@),
        }
    }
}

/// A security scheme of `#/components/securitySchemes`.
#[derive(Debug)]
pub struct SecurityScheme {
    /// The scheme's type name: its name in class case.
    pub ident: String,
    pub kind: SchemeKind,
}

pub struct SecuritySchemeModel {
    pub ident: Seq<char>,
    pub kind: SchemeKindModel,
}

impl View for SecurityScheme {
    type V = SecuritySchemeModel;

    open spec fn view(&self) -> SecuritySchemeModel {
        SecuritySchemeModel { ident: self.ident@, kind: self.kind@ }
    }
}

/// An `http` scheme: only Basic is supported, in any case that title-cases
/// to `Basic`. `None` when `scheme` is not a string.
pub open spec fn spec_http_scheme(schema: YamlNode) -> Option<Result<SchemeKindModel, InferErrorModel>> {
    match schema.spec_str_at("scheme"@) {
        None => None,
        Some(s) => if spec_to_title_case(s) == "Basic"@ {
            Some(Ok(SchemeKindModel::Basic))
        } else {
            Some(Err(InferErrorModel::UnsupportedHttpScheme))
        },
    }
}

/// An `apiKey` scheme, sent in the header that `name` gives. `None` when
/// `name` is not a string.
pub open spec fn spec_api_key_scheme(schema: YamlNode) -> Option<SchemeKindModel> {
    match schema.spec_str_at("name"@) {
        None => None,
        Some(h) => Some(SchemeKindModel::ApiKey(h)),
    }
}

/// The scheme named `name`: by its `type` in camel case, `http` or
/// `apiKey`. `None` when `type`, or what that type needs, is not a string.
pub open spec fn spec_component(name: Seq<char>, schema: YamlNode) -> Option<
    Result<SecuritySchemeModel, InferErrorModel>,
> {
    match schema.spec_str_at("type"@) {
        None => None,
        Some(t) => {
            let kind = if spec_to_camel_case(t) == "http"@ {
                spec_http_scheme(schema)
            } else if spec_to_camel_case(t) == "apiKey"@ {
                match spec_api_key_scheme(schema) {
                    Some(k) => Some(Ok(k)),
                    None => None,
                }
            } else {
                Some(Err(InferErrorModel::UnsupportedAuthType))
            };
            match kind {
                Some(Ok(k)) => Some(Ok(SecuritySchemeModel { ident: spec_to_class_case(name), kind: k })),
                Some(Err(e)) => Some(Err(e)),
                None => None,
            }
        },
    }
}

/// A security scheme takes the class-case name it is listed under. An
/// `http` scheme is HTTP Basic, refused unless its `scheme` title-cases to
/// `Basic`; an `apiKey` scheme sends the key in the header its `name`
/// gives; any other type is refused.
pub proof fn lemma_component_kinds(name: Seq<char>, schema: YamlNode)
    ensures
        spec_component(name, schema) matches Some(Ok(sc)) ==> {
            &&& sc.ident == spec_to_class_case(name)
            &&& schema.spec_str_at("type"@) matches Some(t) && {
                &&& sc.kind == SchemeKindModel::Basic ==> spec_to_camel_case(t) == "http"@
                    && (schema.spec_str_at("scheme"@) matches Some(sch) && spec_to_title_case(sch) == "Basic"@)
                &&& sc.kind matches SchemeKindModel::ApiKey(h) ==> spec_to_camel_case(t) == "apiKey"@
                    && schema.spec_str_at("name"@) == Some(h)
            }
        },
        schema.spec_str_at("type"@) matches Some(t) ==> (spec_to_camel_case(t) != "http"@
            && spec_to_camel_case(t) != "apiKey"@ ==> spec_component(name, schema) == Some(
            Err::<SecuritySchemeModel, InferErrorModel>(InferErrorModel::UnsupportedAuthType),
        )),
        schema.spec_str_at("type"@) matches Some(t) ==> (spec_to_camel_case(t) == "http"@ ==> (
            schema.spec_str_at("scheme"@) matches Some(sch) ==> (spec_to_title_case(sch) != "Basic"@
            ==> spec_component(name, schema) == Some(
            Err::<SecuritySchemeModel, InferErrorModel>(InferErrorModel::UnsupportedHttpScheme),
        )))),
{
    reveal_strlit("http");
    reveal_strlit("apiKey");
    assert("http"@.len() != "apiKey"@.len());
}

/// An `http` scheme's kind: Basic when its `scheme` title-cases to
/// `Basic`.
fn infer_v3_http(schema: &YamlNode) -> (res: Result<SchemeKind, InferError>)
    requires
        spec_http_scheme(*schema) is Some,
    ensures
        match (res, spec_http_scheme(*schema)) {
            (Ok(k), Some(Ok(m))) => k@ == m,
            (Err(e), Some(Err(f))) => e@ == f,
            _ => false,
        },
{
    let scheme = match schema.str_at("scheme") {
        Some(s) => s,
        None => {
            proof {
                assert(false);
            }
            return Err(InferError::UnsupportedHttpScheme);
        },
    };
    let title = to_title_case(scheme);
    if str_eq(title.as_str(), "Basic") {
        Ok(SchemeKind::Basic)
    } else {
        Err(InferError::UnsupportedHttpScheme)
    }
}

/// An `apiKey` scheme's kind: the header that carries the key.
fn infer_v3_api_key(schema: &YamlNode) -> (k: SchemeKind)
    requires
        spec_api_key_scheme(*schema) is Some,
    ensures
        k@ == spec_api_key_scheme(*schema).unwrap(),
{
    match schema.str_at("name") {
        Some(h) => SchemeKind::ApiKey(string_of(h)),
        None => {
            proof {
                assert(false);
            }
            SchemeKind::Basic
        },
    }
}

/// The security scheme `scheme_name` that `schema` describes; `None` when
/// its `type`, or what that type needs, is not a string.
pub fn try_infer_v3_component(scheme_name: &str, schema: &YamlNode) -> (res: Option<
    Result<SecurityScheme, InferError>,
>)
    ensures
        match (res, spec_component(scheme_name@, *schema)) {
            (Some(Ok(s)), Some(Ok(m))) => s@ == m,
            (Some(Err(e)), Some(Err(f))) => e@ == f,
            (None, None) => true,
            _ => false,
        },
{
    let t = match schema.str_at("type") {
        Some(t) => t,
        None => {
            return None;
        },
    };
    let camel = to_camel_case(t);
    let kind = if str_eq(camel.as_str(), "http") {
        if schema.str_at("scheme").is_none() {
            return None;
        }
        match infer_v3_http(schema) {
            Ok(k) => k,
            Err(e) => {
                return Some(Err(e));
            },
        }
    } else if str_eq(camel.as_str(), "apiKey") {
        if schema.str_at("name").is_none() {
            return None;
        }
        infer_v3_api_key(schema)
    } else {
        return Some(Err(InferError::UnsupportedAuthType));
    };
    Some(Ok(SecurityScheme { ident: to_class_case(scheme_name), kind }))
}

/// A security requirement of an operation: a scheme and the scopes it
/// needs.
#[derive(Debug)]
pub struct Requirement {
    /// The scheme's type name, in class case.
    pub scheme: String,
    /// The scopes' type names, in class case.
    pub scopes: Vec<String>,
}

pub struct RequirementModel {
    pub scheme: Seq<char>,
    pub scopes: Seq<Seq<char>>,
}

pub open spec fn spec_strings_view(v: Seq<String>) -> Seq<Seq<char>> {
    v.map_values(|s: String| s@)
}

impl View for Requirement {
    type V = RequirementModel;

    open spec fn view(&self) -> RequirementModel {
        RequirementModel { scheme: self.scheme@, scopes: spec_strings_view(self.scopes@) }
    }
}

pub open spec fn spec_requirements_view(v: Seq<Requirement>) -> Seq<RequirementModel> {
    v.map_values(|r: Requirement| r@)
}

/// The class-case names of a list of scopes; `None` unless every scope is a
/// string.
pub open spec fn spec_scopes(scopes: Seq<YamlNode>) -> Option<Seq<Seq<char>>> {
    if forall|i: int| 0 <= i < scopes.len() ==> (#[trigger] scopes[i]).spec_as_str() is Some {
        Some(scopes.map_values(|y: YamlNode| spec_to_class_case(y.spec_as_str().unwrap())))
    } else {
        None
    }
}

/// One requirement: a map whose last key names the scheme and whose value
/// under that key lists the scopes. `None` when it has another shape.
pub open spec fn spec_requirement(req: YamlNode) -> Option<RequirementModel> {
    match req {
        YamlNode::Hash(entries) => if entries@.len() == 0 {
            None
        } else {
            match entries@.last().0.spec_as_str() {
                None => None,
                Some(id) => match req.spec_get(id) {
                    Some(YamlNode::Array(scopes)) => match spec_scopes(scopes@) {
                        Some(s) => Some(RequirementModel { scheme: spec_to_class_case(id), scopes: s }),
                        None => None,
                    },
                    _ => None,
                },
            }
        },
        _ => None,
    }
}

/// The requirements of an operation's `security` list, in order. `None`
/// unless it is a list of well-formed requirements.
pub open spec fn spec_requirements(security: YamlNode) -> Option<Seq<RequirementModel>> {
    match security {
        YamlNode::Array(reqs) => if forall|i: int|
            0 <= i < reqs@.len() ==> spec_requirement(#[trigger] reqs@[i]) is Some {
            Some(reqs@.map_values(|r: YamlNode| spec_requirement(r).unwrap()))
        } else {
            None
        },
        _ => None,
    }
}

/// A requirement names the scheme of its map's last key, in class case,
/// and lists the scopes under that key, in order, each in class case.
pub proof fn lemma_requirement_shape(req: YamlNode)
    ensures
        spec_requirement(req) matches Some(r) ==> req matches YamlNode::Hash(entries) && {
            &&& entries@.len() > 0
            &&& entries@.last().0.spec_as_str() matches Some(id) && {
                &&& r.scheme == spec_to_class_case(id)
                &&& req.spec_get(id) matches Some(YamlNode::Array(scopes)) && {
                    &&& r.scopes.len() == scopes@.len()
                    &&& forall|j: int| 0 <= j < scopes@.len() ==> ((#[trigger] scopes@[j]).spec_as_str()
                        matches Some(scope) && r.scopes[j] == spec_to_class_case(scope))
                }
            }
        },
{
}

/// An operation's `security` list gives one requirement per item, in the
/// list's order, each read from its own item; it is read whenever it is a
/// list whose items are all well-formed requirements.
pub proof fn lemma_requirements_per_item(security: YamlNode)
    ensures
        spec_requirements(security) matches Some(rs) ==> security matches YamlNode::Array(reqs) && {
            &&& rs.len() == reqs@.len()
            &&& forall|i: int| 0 <= i < rs.len() ==> spec_requirement(reqs@[i]) == Some(#[trigger] rs[i])
        },
        security matches YamlNode::Array(reqs) && (forall|i: int|
            0 <= i < reqs@.len() ==> spec_requirement(#[trigger] reqs@[i]) is Some) ==> spec_requirements(security) is Some,
{
}

/// One requirement; `None` when it has another shape.
fn requirement(req: &YamlNode) -> (r: Option<Requirement>)
    ensures
        match (r, spec_requirement(*req)) {
            (Some(r), Some(m)) => r@ == m,
            (None, None) => true,
            _ => false,
        },
{
    let entries = match req {
        YamlNode::Hash(entries) => entries,
        _ => {
            return None;
        },
    };
    if entries.len() == 0 {
        return None;
    }
    let last = entries.len() - 1;
    let id = match entries[last].0.as_str() {
        Some(id) => id,
        None => {
            return None;
        },
    };
    let scopes = match req.get(id) {
        Some(YamlNode::Array(scopes)) => scopes,
        _ => {
            return None;
        },
    };
    let ghost model = spec_requirement(*req);
    assert(model == match spec_scopes(scopes@) {
        Some(s) => Some(RequirementModel { scheme: spec_to_class_case(id@), scopes: s }),
        None => None,
    });
    let mut names: Vec<String> = Vec::new();
    let n = scopes.len();
    let mut i: usize = 0;
    while i < n
        invariant
            n == scopes@.len(),
            0 <= i <= n,
            model == spec_requirement(*req),
            model == match spec_scopes(scopes@) {
                Some(s) => Some(RequirementModel { scheme: spec_to_class_case(id@), scopes: s }),
                None => None,
            },
            forall|j: int| 0 <= j < i ==> (#[trigger] scopes@[j]).spec_as_str() is Some,
            spec_strings_view(names@) == scopes@.take(i as int).map_values(
                |y: YamlNode| spec_to_class_case(y.spec_as_str().unwrap()),
            ),
        decreases n - i,
    {
        assert(scopes@.take(i + 1) =~= scopes@.take(i as int).push(scopes@[i as int]));
        let ghost before = names@;
        match scopes[i].as_str() {
            Some(s) => {
                names.push(to_class_case(s));
                assert(spec_strings_view(names@) =~= spec_strings_view(before).push(
                    spec_to_class_case(s@),
                ));
            },
            None => {
                return None;
            },
        }
        assert(spec_strings_view(names@) =~= scopes@.take(i + 1).map_values(
            |y: YamlNode| spec_to_class_case(y.spec_as_str().unwrap()),
        ));
        i = i + 1;
    }
    assert(scopes@.take(n as int) =~= scopes@);
    Some(Requirement { scheme: to_class_case(id), scopes: names })
}

/// The requirements of an operation's `security` list, in order; `None`
/// unless it is a list of well-formed requirements.
pub fn try_infer_v3(security: &YamlNode) -> (res: Option<Vec<Requirement>>)
    ensures
        match (res, spec_requirements(*security)) {
            (Some(r), Some(m)) => spec_requirements_view(r@) == m,
            (None, None) => true,
            _ => false,
        },
{
    let reqs = match security {
        YamlNode::Array(reqs) => reqs,
        _ => {
            return None;
        },
    };
    let mut res: Vec<Requirement> = Vec::new();
    let n = reqs.len();
    let mut i: usize = 0;
    while i < n
        invariant
            n == reqs@.len(),
            0 <= i <= n,
            *security == YamlNode::Array(*reqs),
            forall|j: int| 0 <= j < i ==> spec_requirement(#[trigger] reqs@[j]) is Some,
            spec_requirements_view(res@) == reqs@.take(i as int).map_values(
                |r: YamlNode| spec_requirement(r).unwrap(),
            ),
        decreases n - i,
    {
        assert(reqs@.take(i + 1) =~= reqs@.take(i as int).push(reqs@[i as int]));
        let ghost before = res@;
        match requirement(&reqs[i]) {
            Some(r) => {
                res.push(r);
            },
            None => {
                return None;
            },
        }
        assert(spec_requirements_view(res@) =~= spec_requirements_view(before).push(
            spec_requirement(reqs@[i as int]).unwrap(),
        ));
        assert(spec_requirements_view(res@) =~= reqs@.take(i + 1).map_values(
            |r: YamlNode| spec_requirement(r).unwrap(),
        ));
        i = i + 1;
    }
    assert(reqs@.take(n as int) =~= reqs@);
    Some(res)
}

/// The security scheme `scheme_name` that `schema` describes.
pub fn infer_v3_component(scheme_name: &str, schema: &YamlNode) -> (res: Result<SecurityScheme, InferError>)
    requires
        spec_component(scheme_name@, *schema) is Some,
    ensures
        match (res, spec_component(scheme_name@, *schema)) {
            (Ok(x), Some(Ok(m))) => x@ == m,
            (Err(e), Some(Err(f))) => e@ == f,
            _ => false,
        },
{
    match try_infer_v3_component(scheme_name, schema) {
        Some(res) => res,
        None => {
            proof {
                assert(false);
            }
            Err(InferError::MissingType)
        },
    }
}

/// The requirements of an operation's `security` list, in order.
pub fn infer_v3(security: &YamlNode) -> (res: Vec<Requirement>)
    requires
        spec_requirements(*security) is Some,
    ensures
        spec_requirements_view(res@) == spec_requirements(*security).unwrap(),
{
    match try_infer_v3(security) {
        Some(res) => res,
        None => {
            proof {
                assert(false);
            }
            Vec::new()
        },
    }
}

} // verus!
