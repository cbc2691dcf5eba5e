use tapioca::infer::body;
use tapioca::infer::datatype;
use tapioca::infer::derived;
use tapioca::infer::method;
use tapioca::infer::parameter;
use tapioca::infer::params;
use tapioca::infer::path;
use tapioca::infer::query;
use tapioca::infer::response;
use tapioca::infer::schema;
use tapioca::infer::schema::RefDef;
use tapioca::infer::security;
use tapioca::infer::security::SchemeKind;
use tapioca::infer::response::BodyVariant;
use tapioca::infer::response::VariantShape;
use tapioca::infer::types::InferError;
use tapioca::infer::types::RustType;
use tapioca::yaml::YamlNode;

fn s(text: &str) -> YamlNode {
    YamlNode::String(text.to_string())
}

fn map(entries: Vec<(&str, YamlNode)>) -> YamlNode {
    YamlNode::Hash(entries.into_iter().map(|(k, v)| (s(k), v)).collect())
}

fn typed(t: &str) -> YamlNode {
    map(vec![("type", s(t))])
}

fn typed_format(t: &str, f: &str) -> YamlNode {
    map(vec![("type", s(t)), ("format", s(f))])
}

fn param(name: &str, place: &str, schema: YamlNode) -> YamlNode {
    map(vec![("name", s(name)), ("in", s(place)), ("schema", schema)])
}

fn json_content(schema: YamlNode) -> YamlNode {
    map(vec![("content", map(vec![("application/json", map(vec![("schema", schema)]))]))])
}

fn ok_responses() -> YamlNode {
    YamlNode::Hash(vec![(YamlNode::Integer(200), map(vec![("description", s("fine"))]))])
}

fn httpbin() -> YamlNode {
    let ip = map(vec![(
        "get",
        map(vec![(
            "responses",
            YamlNode::Hash(vec![(
                YamlNode::Integer(200),
                json_content(map(vec![
                    ("type", s("object")),
                    ("properties", map(vec![("origin", typed("string"))])),
                ])),
            )]),
        )]),
    )]);
    let status = map(vec![
        (
            "get",
            map(vec![
                ("parameters", YamlNode::Array(vec![param("code", "path", typed_format("integer", "int32"))])),
                ("responses", ok_responses()),
            ]),
        ),
        (
            "delete",
            map(vec![
                ("parameters", YamlNode::Array(vec![param("code", "path", typed_format("integer", "int32"))])),
                ("responses", ok_responses()),
            ]),
        ),
    ]);
    map(vec![
        ("openapi", s("3.0.0")),
        ("servers", YamlNode::Array(vec![map(vec![("url", s("https://httpbin.org"))])])),
        ("paths", map(vec![("/ip", ip), ("/status/{code}", status)])),
        (
            "components",
            map(vec![(
                "schemas",
                map(vec![
                    (
                        "Thing",
                        map(vec![
                            ("required", YamlNode::Array(vec![s("id")])),
                            (
                                "properties",
                                map(vec![
                                    ("id", typed("integer")),
                                    ("label", typed("string")),
                                    ("flag", map(vec![("type", s("boolean")), ("required", YamlNode::Boolean(true))])),
                                ]),
                            ),
                        ]),
                    ),
                    ("Name", typed("string")),
                ]),
            )]),
        ),
    ])
}

#[test]
fn schema_without_version_is_refused() {
    let schema = map(vec![("paths", map(vec![]))]);
    assert!(matches!(schema::infer_schema(&schema), Err(InferError::UnspecifiedVersion)));
}

#[test]
fn schema_of_another_version_is_refused() {
    let schema = map(vec![("openapi", s("2.0"))]);
    match schema::infer_schema(&schema) {
        Err(InferError::UnsupportedVersion(v)) => assert_eq!(v, "2.0"),
        other => panic!("unexpected {:?}", other),
    }
}

#[test]
fn whole_schema_gives_server_refs_and_paths() {
    let api = schema::infer_schema(&httpbin()).unwrap();
    assert_eq!(api.api_url, "https://httpbin.org");
    assert_eq!(api.paths.len(), 2);
    assert_eq!(api.paths[0].ident, "ip");
    assert_eq!(api.paths[0].path, "/ip");
    assert_eq!(api.paths[1].ident, "status__code_");
    assert_eq!(api.schema_refs.len(), 2);
    assert_eq!(api.schema_refs[0].name, "Thing");
    match &api.schema_refs[0].def {
        RefDef::Struct(fields) => {
            assert_eq!(fields.len(), 3);
            assert_eq!(fields[0].name, "id");
            assert!(matches!(fields[0].ty, RustType::I64));
            assert!(fields[0].required);
            assert_eq!(fields[1].name, "label");
            assert!(!fields[1].required);
            assert_eq!(fields[2].name, "flag");
            assert!(fields[2].required);
        },
        other => panic!("unexpected {:?}", other),
    }
    assert_eq!(api.schema_refs[1].name, "Name");
    assert!(matches!(api.schema_refs[1].def, RefDef::Alias(RustType::StrRef)));
}

#[test]
fn named_schema_error_is_reported() {
    let mut doc = httpbin();
    if let YamlNode::Hash(entries) = &mut doc {
        entries[3] = (
            s("components"),
            map(vec![("schemas", map(vec![("Bad", typed("tuple"))]))]),
        );
    }
    match schema::try_infer_v3(&doc) {
        Some(Err(InferError::InvalidType(t))) => assert_eq!(t, "tuple"),
        other => panic!("unexpected {:?}", other),
    }
}

#[test]
fn path_has_one_operation_per_method() {
    let doc = httpbin();
    let status = doc.get("paths").unwrap().get("/status/{code}").unwrap();
    let item = path::try_infer_v3("/status/{code}", status).unwrap().unwrap();
    assert_eq!(item.ident, "status__code_");
    assert_eq!(item.operations.len(), 2);
    assert_eq!(item.operations[0].method, "get");
    assert_eq!(item.operations[0].fn_ident, "get");
    assert_eq!(item.operations[0].mod_ident, "get");
    assert_eq!(item.operations[1].method, "delete");
    assert!(item.operations[1].path.as_ref().unwrap().last_by_value);
    assert!(!item.operations[0].path.as_ref().unwrap().last_by_value);
}

#[test]
fn delete_takes_the_resource_by_value() {
    let params = vec![
        param("owner", "path", typed("string")),
        param("id", "path", typed_format("integer", "int64")),
    ];
    let deleted = params::try_infer_v3("delete", &params).unwrap().unwrap();
    assert!(deleted.last_by_value);
    let fetched = params::try_infer_v3("get", &params).unwrap().unwrap();
    assert!(!fetched.last_by_value);
    assert_eq!(fetched.params.len(), 2);
    assert_eq!(fetched.params[0].placeholder, "{owner}");
    assert_eq!(fetched.params[1].placeholder, "{id}");
    assert_eq!(fetched.params[1].ident, "id");
    assert!(matches!(fetched.params[1].ty, RustType::I64));
}

#[test]
fn upper_case_delete_borrows() {
    let params = vec![param("id", "path", typed("string"))];
    assert!(!params::try_infer_v3("DELETE", &params).unwrap().unwrap().last_by_value);
}

#[test]
fn path_parameter_without_schema_has_no_type() {
    let params = vec![map(vec![("name", s("id")), ("in", s("path"))])];
    assert!(matches!(params::try_infer_v3("get", &params), Some(Err(InferError::MissingType))));
}

#[test]
fn operation_sorts_its_parameters() {
    let op = map(vec![
        (
            "parameters",
            YamlNode::Array(vec![
                param("userId", "path", typed("string")),
                map(vec![
                    ("name", s("pageSize")),
                    ("in", s("query")),
                    ("required", YamlNode::Boolean(true)),
                    ("schema", typed_format("integer", "int32")),
                ]),
                param("filter", "query", typed("string")),
                param("X-Trace", "header", typed("string")),
            ]),
        ),
        ("requestBody", json_content(typed("string"))),
        ("security", YamlNode::Array(vec![map(vec![("petstore_auth", YamlNode::Array(vec![s("read")]))])])),
        ("responses", ok_responses()),
    ]);
    let op = method::try_infer_v3("post", &op).unwrap().unwrap();
    assert_eq!(op.fn_ident, "post");
    let query = op.query.unwrap();
    assert_eq!(query.len(), 2);
    assert_eq!(query[0].ident, "page_size");
    assert_eq!(query[0].name, "pageSize");
    assert!(query[0].required);
    assert_eq!(query[1].name, "filter");
    assert!(!query[1].required);
    let path = op.path.unwrap();
    assert_eq!(path.params.len(), 1);
    assert_eq!(path.params[0].ident, "user_id");
    assert_eq!(path.params[0].placeholder, "{userId}");
    assert!(matches!(op.body.unwrap().ty, RustType::OwnedString));
    let security = op.security.unwrap();
    assert_eq!(security.len(), 1);
    assert_eq!(security[0].scheme, "PetstoreAuth");
    assert_eq!(security[0].scopes, vec!["Read".to_string()]);
    assert_eq!(op.responses.ok.len(), 1);
}

#[test]
fn operation_without_parameters_has_none() {
    let op = map(vec![("responses", ok_responses())]);
    let op = method::try_infer_v3("GET", &op).unwrap().unwrap();
    assert_eq!(op.fn_ident, "get");
    assert!(op.query.is_none());
    assert!(op.path.is_none());
    assert!(op.body.is_none());
    assert!(op.security.is_none());
}

#[test]
fn operation_query_error_comes_first() {
    let op = map(vec![
        ("parameters", YamlNode::Array(vec![param("when", "query", typed("instant"))])),
        ("requestBody", map(vec![])),
        ("responses", ok_responses()),
    ]);
    match method::try_infer_v3("get", &op) {
        Some(Err(InferError::InvalidType(t))) => assert_eq!(t, "instant"),
        other => panic!("unexpected {:?}", other),
    }
}

#[test]
fn request_body_must_be_json() {
    let form = map(vec![(
        "content",
        map(vec![("application/x-www-form-urlencoded", map(vec![("schema", typed("string"))]))]),
    )]);
    assert!(matches!(body::try_infer_v3(&form), Some(Err(InferError::NonJsonBody))));
    let json = json_content(typed_format("number", "float"));
    assert!(matches!(body::try_infer_v3(&json).unwrap().unwrap().ty, RustType::F32));
}

#[test]
fn method_names_are_checked_without_case() {
    assert!(method::valid("get"));
    assert!(method::valid("Patch"));
    assert!(method::valid("DELETE"));
    assert!(!method::valid("TRACE"));
    assert!(!method::valid("fetch"));
}

#[test]
fn basic_http_scheme() {
    let scheme = map(vec![("type", s("http")), ("scheme", s("basic"))]);
    let inferred = security::try_infer_v3_component("basic_auth", &scheme).unwrap().unwrap();
    assert_eq!(inferred.ident, "BasicAuth");
    assert_eq!(inferred.kind, SchemeKind::Basic);
}

#[test]
fn bearer_http_scheme_is_refused() {
    let scheme = map(vec![("type", s("http")), ("scheme", s("bearer"))]);
    assert!(matches!(
        security::try_infer_v3_component("token", &scheme),
        Some(Err(InferError::UnsupportedHttpScheme))
    ));
}

#[test]
fn api_key_scheme_names_its_header() {
    let scheme = map(vec![("type", s("apiKey")), ("name", s("X-API-Key")), ("in", s("header"))]);
    let inferred = security::try_infer_v3_component("key", &scheme).unwrap().unwrap();
    assert_eq!(inferred.ident, "Key");
    assert_eq!(inferred.kind, SchemeKind::ApiKey("X-API-Key".to_string()));
}

#[test]
fn oauth_scheme_is_refused() {
    let scheme = map(vec![("type", s("oauth2"))]);
    assert!(matches!(
        security::try_infer_v3_component("oauth", &scheme),
        Some(Err(InferError::UnsupportedAuthType))
    ));
}

#[test]
fn requirement_takes_its_last_key() {
    let reqs = YamlNode::Array(vec![
        map(vec![("first", YamlNode::Array(vec![])), ("second_scheme", YamlNode::Array(vec![s("write"), s("admin")]))]),
    ]);
    let inferred = security::try_infer_v3(&reqs).unwrap();
    assert_eq!(inferred.len(), 1);
    assert_eq!(inferred[0].scheme, "SecondScheme");
    assert_eq!(inferred[0].scopes, vec!["Write".to_string(), "Admin".to_string()]);
}

#[test]
fn query_fields_follow_parameters() {
    let params = vec![
        map(vec![("name", s("limit")), ("required", YamlNode::Boolean(true)), ("schema", typed("integer"))]),
        map(vec![("name", s("sortBy")), ("required", YamlNode::Boolean(false)), ("schema", typed("string"))]),
    ];
    let fields = query::try_infer_v3(&params).unwrap().unwrap();
    assert_eq!(fields.len(), 2);
    assert_eq!(fields[0].ident, "limit");
    assert!(fields[0].required);
    assert!(matches!(fields[0].ty, RustType::I64));
    assert_eq!(fields[1].ident, "sort_by");
    assert_eq!(fields[1].name, "sortBy");
    assert!(!fields[1].required);
}

#[test]
fn parameter_types_need_formats() {
    assert!(matches!(parameter::infer_type(&typed("integer")), Err(InferError::MissingFormat)));
    assert!(matches!(parameter::infer_type(&typed_format("integer", "int32")), Ok(RustType::I32)));
    assert!(matches!(parameter::infer_type(&typed_format("integer", "int16")), Err(InferError::InvalidIntegerFormat)));
    assert!(matches!(parameter::infer_type(&typed_format("number", "double")), Ok(RustType::F64)));
    assert!(matches!(parameter::infer_type(&typed_format("number", "half")), Err(InferError::InvalidNumberFormat)));
    assert!(matches!(parameter::infer_type(&typed("string")), Ok(RustType::OwnedString)));
    assert!(matches!(parameter::infer_type(&typed_format("string", "byte")), Ok(RustType::Base64)));
    assert!(matches!(parameter::infer_type(&typed_format("string", "password")), Ok(RustType::OwnedString)));
    assert!(matches!(parameter::infer_type(&typed_format("boolean", "bit")), Err(InferError::UnexpectedBooleanFormat)));
    assert!(matches!(parameter::infer_type(&map(vec![])), Err(InferError::MissingType)));
}

#[test]
fn parameter_struct_fields() {
    let params = YamlNode::Array(vec![
        param("pageToken", "query", typed("string")),
        param("count", "query", typed_format("integer", "int64")),
    ]);
    let fields = parameter::try_infer_v3(&params).unwrap().unwrap();
    assert_eq!(fields.len(), 2);
    assert_eq!(fields[0].ident, "page_token");
    assert_eq!(fields[0].name, "pageToken");
    assert!(matches!(fields[1].ty, RustType::I64));
}

#[test]
fn value_types_by_type_and_format() {
    let cases = vec![
        (typed("integer"), "I64"),
        (typed_format("integer", "int32"), "I32"),
        (typed("number"), "F64"),
        (typed_format("number", "float"), "F32"),
        (typed("string"), "StrRef"),
        (typed_format("string", "binary"), "Bytes"),
        (typed_format("string", "date"), "Date"),
        (typed_format("string", "date-time"), "DateTime"),
        (typed("boolean"), "Bool"),
    ];
    for (schema, expected) in cases {
        let inferred = datatype::try_infer_v3(&schema).unwrap().unwrap();
        assert_eq!(format!("{:?}", inferred.ty), expected);
        assert!(inferred.support.is_empty());
    }
}

#[test]
fn references_name_the_last_segment() {
    let schema = map(vec![("$ref", s("#/components/schemas/pet_owner"))]);
    match datatype::try_infer_v3(&schema).unwrap().unwrap().ty {
        RustType::SchemaRef(name) => assert_eq!(name, "PetOwner"),
        other => panic!("unexpected {:?}", other),
    }
    assert_eq!(datatype::ref_name("#/components/schemas/Pet"), "Pet");
}

#[test]
fn nested_objects_come_before_their_users() {
    let schema = map(vec![
        ("type", s("object")),
        (
            "properties",
            map(vec![
                ("inner", map(vec![("type", s("object")), ("properties", map(vec![("n", typed("integer"))]))])),
                ("list", map(vec![("type", s("array")), ("items", typed("string"))])),
            ]),
        ),
    ]);
    let inferred = datatype::try_infer_v3(&schema).unwrap().unwrap();
    assert!(matches!(inferred.ty, RustType::Anonymous(1)));
    assert_eq!(inferred.support.len(), 2);
    assert!(matches!(inferred.support[1].fields[0].ty, RustType::Anonymous(0)));
    assert!(inferred.has_lifetime);
    assert!(!inferred.support[0].has_lifetime);
}

#[test]
fn value_type_errors() {
    assert!(matches!(datatype::try_infer_v3(&map(vec![])), Some(Err(InferError::MissingType))));
    assert!(matches!(datatype::try_infer_v3(&typed_format("integer", "int8")), Some(Err(InferError::InvalidIntegerFormat))));
    assert!(matches!(datatype::try_infer_v3(&typed_format("boolean", "x")), Some(Err(InferError::UnexpectedBooleanFormat))));
    assert!(matches!(datatype::try_infer_v3(&typed("array")), Some(Err(InferError::MissingType))));
}

#[test]
fn responses_are_split_at_400() {
    let responses = YamlNode::Hash(vec![
        (YamlNode::Integer(200), json_content(map(vec![("type", s("object")), ("properties", map(vec![]))]))),
        (YamlNode::Integer(404), map(vec![])),
        (YamlNode::Integer(302), map(vec![])),
        (s("default"), map(vec![])),
    ]);
    let inferred = response::try_infer_v3(&responses).unwrap().unwrap();
    assert_eq!(inferred.ok.len(), 2);
    assert_eq!(inferred.ok[0].code, 200);
    assert_eq!(inferred.ok[0].name, "Status200");
    assert!(matches!(inferred.ok[0].model, RustType::Anonymous(0)));
    assert_eq!(inferred.ok[1].code, 302);
    assert_eq!(inferred.err.len(), 2);
    assert_eq!(inferred.err[0].code, 404);
    assert!(matches!(inferred.err[0].model, RustType::Unit));
    assert_eq!(inferred.err[1].code, 999);
    assert_eq!(inferred.err[1].name, "UnspecifiedCode");
    assert!(inferred.has_default);
    assert_eq!(inferred.support.len(), 1);
}

#[test]
fn derived_schema_names_paths() {
    let api = derived::infer_schema("Httpbin", &httpbin()).unwrap();
    assert_eq!(api.len(), 2);
    assert_eq!(api[0].struct_ident, "HttpbinIp");
    assert_eq!(api[0].fn_ident, "ip");
    assert_eq!(api[1].fn_ident, "status{code}");
}

#[test]
fn derived_schema_checks_version() {
    assert!(matches!(
        derived::infer_schema("Api", &map(vec![])),
        Err(InferError::UnspecifiedVersion)
    ));
}

#[test]
fn derived_method_query_struct() {
    let op = map(vec![(
        "parameters",
        YamlNode::Array(vec![param("url", "query", typed("string")), param("id", "path", typed("string"))]),
    )]);
    let derived = derived::try_infer_v3_method("GET", &op).unwrap();
    assert_eq!(derived.fn_ident, "get");
    let query = derived.query.unwrap();
    assert_eq!(query.ident, "GetQueryParams");
    assert_eq!(query.fields.len(), 1);
    assert_eq!(query.fields[0].name, "url");
    assert!(matches!(query.fields[0].ty, RustType::OwnedString));
    let bare = derived::try_infer_v3_method("put", &map(vec![])).unwrap();
    assert_eq!(bare.fn_ident, "put");
    assert!(bare.query.is_none());
}

#[test]
fn derived_names() {
    assert_eq!(derived::mod_ident("/foo/bar/"), "foo_bar");
    assert_eq!(derived::path_struct_ident("Api", "/foo/bar"), "ApiFooBar");
    assert_eq!(derived::path_fn_ident("/Foo/Bar"), "foobar");
    assert_eq!(derived::parse_response_key(&YamlNode::Integer(201)), (201, "Status201".to_string()));
    assert_eq!(derived::parse_response_key(&s("default")), (520, "Status520".to_string()));
    assert_eq!(response::parse_response_key(&s("default")), (999, "UnspecifiedCode".to_string()));
}

#[test]
fn unreadable_schemas_give_none() {
    let no_paths = map(vec![("openapi", s("3.0.0"))]);
    assert!(schema::try_infer_schema(&no_paths).is_none());
    assert!(schema::try_infer_schema(&httpbin()).unwrap().is_ok());
    let unnamed = vec![map(vec![("in", s("path")), ("schema", typed("string"))])];
    assert!(params::try_infer_v3("get", &unnamed).is_none());
    assert!(params::try_infer_v3("get", &Vec::new()).is_none());
    assert!(method::try_infer_v3("TRACE", &map(vec![("responses", ok_responses())])).is_none());
    assert!(method::try_infer_v3("get", &map(vec![])).is_none());
    assert!(path::try_infer_v3("/x", &YamlNode::Array(vec![])).is_none());
    assert!(security::try_infer_v3(&map(vec![])).is_none());
    assert!(security::try_infer_v3(&YamlNode::Array(vec![map(vec![])])).is_none());
    assert!(security::try_infer_v3_component("x", &map(vec![("type", s("apiKey"))])).is_none());
    let object_without_properties = typed("object");
    assert!(datatype::try_infer_v3(&object_without_properties).is_none());
    assert!(response::try_infer_v3(&YamlNode::Null).is_none());
    assert!(derived::try_infer_v3_method("fetch", &map(vec![])).is_none());
    assert!(derived::try_infer_schema("Api", &map(vec![("openapi", s("3.0.0"))])).is_none());
}

#[test]
fn derived_api_lists_modules_and_refs() {
    let mut doc = httpbin();
    if let YamlNode::Hash(entries) = &mut doc {
        entries[3] = (
            s("components"),
            map(vec![("schemas", map(vec![("Origin", map(vec![("properties", map(vec![("origin", typed("string"))]))]))]))]),
        );
    }
    assert!(derived::try_infer_v3(&httpbin()).is_none());
    let api = derived::try_infer_v3(&doc).unwrap();
    assert_eq!(api.refs.len(), 1);
    assert_eq!(api.refs[0].name, "Origin");
    assert_eq!(api.refs[0].fields[0].name, "origin");
    assert_eq!(api.api_url, "https://httpbin.org");
    assert_eq!(api.paths.len(), 2);
    assert_eq!(api.paths[0].ident, "ip");
    assert_eq!(api.paths[0].methods.len(), 1);
    assert_eq!(api.paths[0].methods[0].fn_ident, "get");
    assert!(api.paths[0].methods[0].query.is_none());
    assert_eq!(api.paths[1].ident, "status_{code_}");
    assert_eq!(api.paths[1].methods.len(), 2);
    assert_eq!(api.paths[1].methods[1].fn_ident, "delete");
    let status_query = api.paths[1].methods[0].query.as_ref().unwrap();
    assert_eq!(status_query.ident, "GetQueryParams");
    assert!(status_query.fields.is_empty());
}

#[test]
fn derived_refs_need_properties() {
    let thing = map(vec![("properties", map(vec![("id", typed("integer")), ("tags", map(vec![("type", s("array")), ("items", typed("string"))]))]))]);
    let r = derived::try_infer_ref("Thing", &thing).unwrap();
    assert_eq!(r.name, "Thing");
    assert_eq!(r.fields.len(), 2);
    assert_eq!(r.fields[0].name, "id");
    assert!(matches!(r.fields[0].ty, RustType::I64));
    assert!(matches!(&r.fields[1].ty, RustType::Vec(item) if matches!(**item, RustType::StrRef)));
    assert!(derived::try_infer_ref("Name", &typed("string")).is_none());
}

#[test]
fn responses_are_decoded_by_status() {
    let responses = YamlNode::Hash(vec![
        (YamlNode::Integer(200), map(vec![])),
        (YamlNode::Integer(201), map(vec![])),
        (YamlNode::Integer(404), map(vec![])),
    ]);
    let inferred = response::infer_v3(&responses).unwrap();
    assert_eq!(response::ok_body_variant(&inferred, 201, true), BodyVariant::Documented(1));
    assert_eq!(response::ok_body_variant(&inferred, 201, false), BodyVariant::MalformedJson);
    assert_eq!(response::ok_body_variant(&inferred, 204, true), BodyVariant::UnspecifiedText);
    assert_eq!(response::err_body_variant(&inferred, Some(404), true), BodyVariant::Documented(0));
    assert_eq!(response::err_body_variant(&inferred, Some(404), false), BodyVariant::MalformedJson);
    assert_eq!(response::err_body_variant(&inferred, Some(500), true), BodyVariant::UnspecifiedText);
    assert_eq!(response::err_body_variant(&inferred, None, false), BodyVariant::NetworkFailure);
    assert_eq!(
        response::ok_enum(&inferred),
        vec![VariantShape::Documented(0), VariantShape::Documented(1), VariantShape::MalformedJson, VariantShape::UnspecifiedText]
    );
    assert_eq!(
        response::err_enum(&inferred),
        vec![VariantShape::Documented(0), VariantShape::UnspecifiedText, VariantShape::MalformedJson, VariantShape::NetworkFailure]
    );

    let with_default = YamlNode::Hash(vec![(YamlNode::Integer(400), map(vec![])), (s("default"), map(vec![]))]);
    let inferred = response::infer_v3(&with_default).unwrap();
    assert_eq!(response::err_body_variant(&inferred, Some(503), true), BodyVariant::Default);
    assert_eq!(response::err_body_variant(&inferred, Some(503), false), BodyVariant::MalformedJson);
    assert_eq!(response::err_body_variant(&inferred, Some(400), true), BodyVariant::Documented(0));
    assert_eq!(
        response::err_enum(&inferred),
        vec![VariantShape::Documented(0), VariantShape::Documented(1), VariantShape::MalformedJson, VariantShape::NetworkFailure]
    );
}

#[test]
fn exact_versions_on_well_formed_schemas() {
    let api = schema::infer_v3(&httpbin()).unwrap();
    assert_eq!(api.paths.len(), 2);
    let status = httpbin();
    let status = status.get("paths").unwrap().get("/status/{code}").unwrap();
    assert_eq!(path::infer_v3("/status/{code}", status).unwrap().operations.len(), 2);
    let op = map(vec![("responses", ok_responses())]);
    assert_eq!(method::infer_v3("get", &op).unwrap().fn_ident, "get");
    let params = vec![param("id", "path", typed("string"))];
    assert!(params::infer_v3("delete", &params).unwrap().last_by_value);
    let fields = query::infer_v3(&vec![param("q", "query", typed("string"))]).unwrap();
    assert_eq!(fields[0].name, "q");
    assert!(matches!(body::infer_v3(&json_content(typed("boolean"))).unwrap().ty, RustType::Bool));
    assert!(matches!(datatype::infer_v3(&typed("integer")).unwrap().ty, RustType::I64));
    let basic = map(vec![("type", s("http")), ("scheme", s("Basic"))]);
    assert_eq!(security::infer_v3_component("b", &basic).unwrap().kind, SchemeKind::Basic);
    let reqs = YamlNode::Array(vec![map(vec![("b", YamlNode::Array(vec![]))])]);
    assert_eq!(security::infer_v3(&reqs)[0].scheme, "B");
    let paths = derived::infer_v3_schema("Api", &httpbin());
    assert_eq!(paths[0].struct_ident, "ApiIp");
    assert_eq!(derived::infer_v3_method("get", &map(vec![])).fn_ident, "get");
    let thing = map(vec![("properties", map(vec![("id", typed("integer"))]))]);
    assert_eq!(derived::infer_ref("Thing", &thing).fields.len(), 1);
    let q = YamlNode::Array(vec![param("n", "query", typed("integer"))]);
    assert!(!derived::infer_v3_query(&q).unwrap().lifetime);
    assert_eq!(parameter::infer_v3(&YamlNode::Array(vec![param("n", "query", typed_format("integer", "int32"))])).unwrap().len(), 1);
    assert!(derived::infer_v3_responses(&ok_responses()).unwrap().success.len() == 1);
}

#[test]
fn scheme_types_are_read_in_camel_case() {
    let scheme = map(vec![("type", s("api_key")), ("name", s("X-Key"))]);
    let inferred = security::try_infer_v3_component("key", &scheme).unwrap().unwrap();
    assert_eq!(inferred.kind, SchemeKind::ApiKey("X-Key".to_string()));
}

#[test]
fn derived_responses_split_at_400() {
    let responses = YamlNode::Hash(vec![
        (YamlNode::Integer(200), json_content(map(vec![("type", s("object")), ("properties", map(vec![("name", typed("string"))]))]))),
        (YamlNode::Integer(404), map(vec![])),
        (s("default"), map(vec![])),
    ]);
    let inferred = derived::try_infer_v3_responses(&responses).unwrap().unwrap();
    assert_eq!(inferred.success.len(), 1);
    assert_eq!(inferred.success[0].name, "Status200");
    assert!(inferred.success[0].borrows);
    assert!(inferred.success_lifetime);
    assert_eq!(inferred.error.len(), 2);
    assert_eq!(inferred.error[0].code, 404);
    assert_eq!(inferred.error[1].code, 520);
    assert_eq!(inferred.error[1].name, "Status520");
    assert!(!inferred.error_lifetime);
    assert_eq!(inferred.support.len(), 1);
    assert!(derived::try_infer_v3_responses(&YamlNode::Null).is_none());
}

#[test]
fn derived_query_needs_a_lifetime_for_borrowed_fields() {
    let params = YamlNode::Array(vec![
        map(vec![("name", s("pageSize")), ("required", YamlNode::Boolean(true)), ("schema", typed("integer"))]),
        map(vec![("name", s("q")), ("schema", typed("string"))]),
    ]);
    let query = derived::try_infer_v3_query(&params).unwrap().unwrap();
    assert_eq!(query.fields.len(), 2);
    assert_eq!(query.fields[0].ident, "page_size");
    assert!(query.fields[0].required);
    assert!(!query.fields[1].required);
    assert!(query.lifetime);
    let numbers = YamlNode::Array(vec![map(vec![("name", s("n")), ("schema", typed("integer"))])]);
    assert!(!derived::try_infer_v3_query(&numbers).unwrap().unwrap().lifetime);
    assert!(derived::try_infer_v3_query(&YamlNode::Null).is_none());
}

#[test]
fn request_body_texts_are_owned() {
    let object = map(vec![
        ("type", s("object")),
        (
            "properties",
            map(vec![
                ("name", typed("string")),
                ("note", typed_format("string", "password")),
                ("blob", typed_format("string", "binary")),
            ]),
        ),
    ]);
    let inferred = body::infer_v3(&json_content(object.clone_node())).unwrap();
    let fields = &inferred.support[0].fields;
    assert!(matches!(fields[0].ty, RustType::OwnedString));
    assert!(matches!(fields[1].ty, RustType::OwnedString));
    assert!(matches!(fields[2].ty, RustType::Bytes));
    let borrowed = datatype::infer_v3(&object).unwrap();
    assert!(matches!(borrowed.support[0].fields[0].ty, RustType::StrRef));
}

#[test]
fn status_body_matching_by_schema() {
    let responses = YamlNode::Hash(vec![(YamlNode::Integer(200), map(vec![])), (YamlNode::Integer(400), map(vec![]))]);
    let inferred = response::try_infer_v3(&responses).unwrap().unwrap();
    assert_eq!(inferred.ok[0].name, "Status200");
    assert_eq!(inferred.err[0].name, "Status400");
    assert_eq!(response::ok_body_variant(&inferred, 200, true), BodyVariant::Documented(0));
    assert_eq!(response::err_body_variant(&inferred, Some(400), true), BodyVariant::Documented(0));
    assert_eq!(response::err_body_variant(&inferred, Some(401), true), BodyVariant::UnspecifiedText);
}

trait CloneNode {
    fn clone_node(&self) -> YamlNode;
}

impl CloneNode for YamlNode {
    fn clone_node(&self) -> YamlNode {
        match self {
            YamlNode::Real(r) => YamlNode::Real(r.clone()),
            YamlNode::Integer(i) => YamlNode::Integer(*i),
            YamlNode::String(t) => YamlNode::String(t.clone()),
            YamlNode::Boolean(b) => YamlNode::Boolean(*b),
            YamlNode::Array(items) => YamlNode::Array(items.iter().map(|y| y.clone_node()).collect()),
            YamlNode::Hash(entries) => {
                YamlNode::Hash(entries.iter().map(|(k, v)| (k.clone_node(), v.clone_node())).collect())
            },
            YamlNode::Alias(a) => YamlNode::Alias(*a),
            YamlNode::Null => YamlNode::Null,
            YamlNode::BadValue => YamlNode::BadValue,
        }
    }
}
