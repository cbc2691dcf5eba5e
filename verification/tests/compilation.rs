use tapioca::auth::HttpBasic;
use tapioca::infer::body;
use tapioca::infer::types::RustType;
use tapioca::query::QueryPair;
use tapioca::query::QueryParameter;
use tapioca::query::QueryString;
use tapioca::response::ClientResponse;
use tapioca::response::Response;
use tapioca::response::ResponseBody;
use tapioca::response::ResponseResult;
use tapioca::response::Status;
use tapioca::response::StatusCode;
use tapioca::yaml::YamlNode;

fn s(text: &str) -> YamlNode {
    YamlNode::String(text.to_string())
}

fn map(entries: Vec<(&str, YamlNode)>) -> YamlNode {
    YamlNode::Hash(entries.into_iter().map(|(k, v)| (s(k), v)).collect())
}

struct EchoQuery {
    echo: Option<String>,
}

impl QueryString for EchoQuery {
    fn as_query_kv(&self) -> Vec<QueryPair> {
        self.echo.as_query_kv("echo")
    }
}

#[derive(Debug)]
struct OkBody(u16);

#[derive(Debug)]
struct ErrBody(u16);

impl ResponseBody for OkBody {
    fn from(maybe_response: Option<&ClientResponse>) -> Self {
        OkBody(StatusCode::of(&maybe_response).to_u16())
    }
}

impl ResponseBody for ErrBody {
    fn from(maybe_response: Option<&ClientResponse>) -> Self {
        ErrBody(StatusCode::of(&maybe_response).to_u16())
    }
}

#[derive(Debug)]
struct OkResult {
    body: OkBody,
    status_code: StatusCode,
}

#[derive(Debug)]
struct ErrResult {
    body: ErrBody,
    status_code: StatusCode,
}

impl Response for OkResult {
    type BodyType = OkBody;

    fn from(maybe_response: Option<&ClientResponse>) -> Self {
        let status_code = StatusCode::of(&maybe_response);
        assert!(status_code.is_ok());
        OkResult { body: <OkBody as ResponseBody>::from(maybe_response), status_code }
    }

    fn body(&self) -> OkBody {
        OkBody(self.body.0)
    }

    fn status_code(&self) -> StatusCode {
        self.status_code
    }
}

impl Response for ErrResult {
    type BodyType = ErrBody;

    fn from(maybe_response: Option<&ClientResponse>) -> Self {
        let status_code = StatusCode::of(&maybe_response);
        assert!(status_code.is_err());
        ErrResult { body: <ErrBody as ResponseBody>::from(maybe_response), status_code }
    }

    fn body(&self) -> ErrBody {
        ErrBody(self.body.0)
    }

    fn status_code(&self) -> StatusCode {
        self.status_code
    }
}

type ApiResult = ResponseResult<OkResult, ErrResult>;

/// What the programs that must build and run rely on: Basic credentials
/// from a pair, an optional query parameter, and responses sorted by status.
#[test]
fn compilation_ok() {
    let user = String::from("Foo");
    let auth = HttpBasic::from((user.clone(), "wrong".into()));
    assert_eq!(auth.user, user);
    assert!(auth.fmt().starts_with("Basic "));

    let query = EchoQuery { echo: Some("foobar".into()) };
    assert_eq!(query.as_query(), "?echo=foobar");

    let ok = ClientResponse::new(200, String::new());
    match <ApiResult as Response>::from(Some(&ok)) {
        Ok(response) => assert!(response.status_code().is_success()),
        Err(_) => panic!("a 200 response is a success"),
    }

    let unauthorized = ClientResponse::new(401, String::new());
    match <ApiResult as Response>::from(Some(&unauthorized)) {
        Ok(_) => panic!("a 401 response is a failure"),
        Err(response) => assert_eq!(response.body().0, 401),
    }

    match <ApiResult as Response>::from(None) {
        Ok(_) => panic!("no response is a failure"),
        Err(response) => assert_eq!(response.status_code().to_u16(), 520),
    }
}

/// What makes the programs that must not build fail: a body field that the
/// schema requires is not optional, so `None` does not fit it.
#[test]
fn compilation_errors() {
    let schema = map(vec![
        ("type", s("object")),
        ("required", YamlNode::Array(vec![s("musthave")])),
        (
            "properties",
            map(vec![
                ("musthave", map(vec![("type", s("string"))])),
                ("ifyouwant", map(vec![("type", s("array")), ("items", map(vec![("type", s("string"))]))])),
            ]),
        ),
    ]);
    let request_body = map(vec![(
        "content",
        map(vec![("application/json", map(vec![("schema", schema)]))]),
    )]);
    let inferred = body::try_infer_v3(&request_body).unwrap().unwrap();
    assert!(matches!(inferred.ty, RustType::Anonymous(0)));
    assert!(!inferred.has_lifetime);
    assert_eq!(inferred.support.len(), 1);
    let fields = &inferred.support[0].fields;
    assert_eq!(fields[0].name, "musthave");
    assert!(fields[0].required);
    assert!(matches!(fields[0].ty, RustType::OwnedString));
    assert_eq!(fields[1].name, "ifyouwant");
    assert!(!fields[1].required);
    assert!(matches!(&fields[1].ty, RustType::Vec(item) if matches!(**item, RustType::OwnedString)));
}
