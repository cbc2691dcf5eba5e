use tapioca::json_response;
use tapioca::json_response::ErrResponse;
use tapioca::query::QueryPair;
use tapioca::query::QueryParameter;
use tapioca::query::QueryString;
use tapioca::response::ClientResponse;
use tapioca::response::Response;
use tapioca::response::ResponseBody;
use tapioca::response::ResponseResult;
use tapioca::response::Status;
use tapioca::response::StatusCode;
use tapioca::source;
use tapioca::source::SchemaAttr;
use tapioca::source::SourceError;
use tapioca::text;
use tapioca::yaml::YamlNode;

#[derive(Debug, PartialEq)]
enum RedirectOk {
    Status200,
    UnspecifiedCode(u16),
}

#[derive(Debug, PartialEq)]
enum RedirectErr {
    Status400,
    UnspecifiedCode(u16),
    NetworkFailure,
}

impl ResponseBody for RedirectOk {
    fn from(maybe_response: Option<&ClientResponse>) -> Self {
        match StatusCode::of(&maybe_response).to_u16() {
            200 => RedirectOk::Status200,
            code => RedirectOk::UnspecifiedCode(code),
        }
    }
}

impl ResponseBody for RedirectErr {
    fn from(maybe_response: Option<&ClientResponse>) -> Self {
        match maybe_response {
            None => RedirectErr::NetworkFailure,
            Some(r) => match r.status().to_u16() {
                400 => RedirectErr::Status400,
                code => RedirectErr::UnspecifiedCode(code),
            },
        }
    }
}

struct OkReply {
    status: StatusCode,
    body: RedirectOk,
}

struct ErrReply {
    status: StatusCode,
    body: RedirectErr,
}

impl Response for OkReply {
    type BodyType = RedirectOk;

    fn from(maybe_response: Option<&ClientResponse>) -> Self {
        OkReply {
            status: StatusCode::of(&maybe_response),
            body: <RedirectOk as ResponseBody>::from(maybe_response),
        }
    }

    fn body(&self) -> RedirectOk {
        match self.body {
            RedirectOk::Status200 => RedirectOk::Status200,
            RedirectOk::UnspecifiedCode(c) => RedirectOk::UnspecifiedCode(c),
        }
    }

    fn status_code(&self) -> StatusCode {
        self.status
    }
}

impl Response for ErrReply {
    type BodyType = RedirectErr;

    fn from(maybe_response: Option<&ClientResponse>) -> Self {
        ErrReply {
            status: StatusCode::of(&maybe_response),
            body: <RedirectErr as ResponseBody>::from(maybe_response),
        }
    }

    fn body(&self) -> RedirectErr {
        match self.body {
            RedirectErr::Status400 => RedirectErr::Status400,
            RedirectErr::UnspecifiedCode(c) => RedirectErr::UnspecifiedCode(c),
            RedirectErr::NetworkFailure => RedirectErr::NetworkFailure,
        }
    }

    fn status_code(&self) -> StatusCode {
        self.status
    }
}

type Redirect = ResponseResult<OkReply, ErrReply>;

fn reply(status: u16) -> ClientResponse {
    ClientResponse::new(status, String::new())
}

#[test]
fn ok_err_matching() {
    let query200 = reply(200);
    let query400 = reply(400);

    match <Redirect as Response>::from(Some(&query200)) {
        Ok(_) => assert!(true),
        Err(_) => assert!(false),
    }

    match <Redirect as Response>::from(Some(&query400)) {
        Ok(_) => assert!(false),
        Err(_) => assert!(true),
    }
}

#[test]
fn status_body_matching() {
    let query200 = reply(200);
    let query400 = reply(400);

    match <Redirect as Response>::from(Some(&query200)) {
        Ok(response) => match response.body() {
            RedirectOk::Status200 => assert!(true),
            _ => assert!(false),
        },
        Err(_) => assert!(false),
    }

    match <Redirect as Response>::from(Some(&query400)) {
        Ok(_) => assert!(false),
        Err(response) => match response.body() {
            RedirectErr::Status400 => assert!(true),
            _ => assert!(false),
        },
    }
}

#[test]
fn result_body_and_status_follow_the_side() {
    let moved = reply(301);
    let result = <Redirect as Response>::from(Some(&moved));
    assert!(result.is_ok());
    assert_eq!(result.status_code().to_u16(), 301);
    assert_eq!(result.body(), Ok(RedirectOk::UnspecifiedCode(301)));

    let missing = <Redirect as Response>::from(None);
    assert!(!missing.is_ok());
    assert_eq!(missing.status_code().to_u16(), 520);
    assert_eq!(missing.body(), Err(RedirectErr::NetworkFailure));

    let teapot = <Redirect as Response>::from(Some(&reply(418)));
    assert_eq!(teapot.body(), Err(RedirectErr::UnspecifiedCode(418)));
}

#[test]
fn status_classes() {
    for code in [100u16, 101, 199, 200, 204, 299, 300, 304, 399] {
        assert!(StatusCode::from_u16(code).is_ok(), "{}", code);
        assert!(!StatusCode::from_u16(code).is_err(), "{}", code);
    }
    for code in [0u16, 99, 400, 404, 499, 500, 520, 999] {
        assert!(StatusCode::from_u16(code).is_err(), "{}", code);
        assert!(!StatusCode::from_u16(code).is_ok(), "{}", code);
    }
    assert!(StatusCode::from_u16(150).is_informational());
    assert!(StatusCode::from_u16(250).is_success());
    assert!(StatusCode::from_u16(350).is_redirection());
    assert!(!StatusCode::from_u16(350).is_success());
}

#[test]
fn status_of_no_response_is_520() {
    assert_eq!(StatusCode::of(&None).to_u16(), 520);
    let r = reply(204);
    assert_eq!(StatusCode::of(&Some(&r)).to_u16(), 204);
    assert_eq!(r.status().to_u16(), 204);
}

struct Search {
    term: String,
    page: Option<i32>,
    tags: Vec<String>,
    exact: bool,
}

impl QueryString for Search {
    fn as_query_kv(&self) -> Vec<QueryPair> {
        let mut pairs = self.term.as_query_kv("q");
        pairs.extend(self.page.as_query_kv("page"));
        pairs.extend(self.tags.as_query_kv("tag"));
        pairs.extend(self.exact.as_query_kv("exact"));
        pairs
    }
}

#[test]
fn query_string_joins_pairs() {
    let search = Search {
        term: "cats".into(),
        page: Some(-2),
        tags: vec!["a".into(), "b".into()],
        exact: true,
    };
    assert_eq!(search.as_query(), "?q=cats&page=-2&tag=a&tag=b&exact=");
}

#[test]
fn query_parameter_forms() {
    assert!(false.as_query_kv("flag").is_empty());
    assert_eq!(true.as_query_kv("flag"), vec![("flag".to_string(), String::new())]);
    assert_eq!(42i32.as_query_kv("n"), vec![("n".to_string(), "42".to_string())]);
    assert_eq!(
        i64::MIN.as_query_kv("n"),
        vec![("n".to_string(), "-9223372036854775808".to_string())]
    );
    let absent: Option<i64> = None;
    assert_eq!(absent.as_query_kv("n"), vec![("n".to_string(), String::new())]);
    let none: Vec<i32> = Vec::new();
    assert!(none.as_query_kv("n").is_empty());
}

struct Nothing;

impl QueryString for Nothing {
    fn as_query_kv(&self) -> Vec<QueryPair> {
        Vec::new()
    }
}

#[test]
fn empty_query_is_a_bare_question_mark() {
    assert_eq!(Nothing.as_query(), "?");
    let missing: Option<Nothing> = None;
    assert_eq!(missing.as_query(), "?");
}

#[test]
fn decimal_numerals() {
    assert_eq!(text::u64_to_decimal(0), "0");
    assert_eq!(text::u64_to_decimal(1907), "1907");
    assert_eq!(text::u64_to_decimal(u64::MAX), "18446744073709551615");
    assert_eq!(text::i64_to_decimal(-7), "-7");
    assert_eq!(text::i64_to_decimal(0), "0");
}

#[test]
fn splitting_keeps_empty_pieces() {
    assert_eq!(text::split_on("a//b", '/'), vec!["a", "", "b"]);
    assert_eq!(text::split_on("", '/'), vec![""]);
    assert!(text::contains_char("a:b", ':'));
    assert!(!text::contains_char("ab", ':'));
    assert!(text::str_eq("x", "x"));
    assert!(!text::str_eq("x", "xy"));
}

#[test]
fn json_body_and_status() {
    let r = ClientResponse::new(404, "{\"error\": \"missing\"}".to_string());
    let body = json_response::deser_body(Some(&r));
    assert_eq!(body["error"], "missing");
    assert!(json_response::deser_body(None).is_null());
    assert_eq!(json_response::deser_status(&Some(&r)).to_u16(), 404);
    assert_eq!(json_response::deser_status(&None).to_u16(), 520);
    assert!(json_response::is_ok(&StatusCode::from_u16(302)));
    assert!(!json_response::is_ok(&StatusCode::from_u16(404)));
}

#[test]
fn json_failure_without_response() {
    match <json_response::ResponseResult as json_response::Response>::from(None) {
        Err(ErrResponse { body, status_code }) => {
            assert!(body.is_null());
            assert_eq!(status_code.to_u16(), 520);
        },
        Ok(_) => panic!("no response is a failure"),
    }
}

#[test]
fn macro_input_quotes_the_url() {
    assert_eq!(
        source::quoted_url("httpbin, \"https://example.org/schema.yml\""),
        Some("https://example.org/schema.yml".to_string())
    );
    assert_eq!(source::quoted_url("\"unterminated"), Some("unterminated".to_string()));
    assert_eq!(source::quoted_url("no quotes"), None);
}

#[test]
fn cache_file_of_a_hash() {
    assert_eq!(source::cache_file_name(12345), "12345.yml");
    assert_eq!(source::cache_path("12345.yml"), ".tapioca-cache/12345.yml");
}

#[test]
fn first_document_is_the_schema() {
    match source::parse_first_doc("a: 1\n---\nb: 2") {
        Ok(doc) => {
            assert_eq!(doc.get("a").and_then(|v| v.as_i64()), Some(1));
            assert!(doc.get("b").is_none());
        },
        Err(e) => panic!("unexpected {:?}", e),
    }
    assert_eq!(source::parse_first_doc("").err(), Some(SourceError::NoDocument));
    assert_eq!(source::parse_first_doc("a: [1, 2").err(), Some(SourceError::InvalidYaml));
}

#[test]
fn schema_url_comes_from_the_first_attribute() {
    let attrs = vec![
        SchemaAttr { name: "derive".to_string(), value: None },
        SchemaAttr { name: "SchemaURL".to_string(), value: Some("https://a/s.yml".to_string()) },
        SchemaAttr { name: "SchemaURL".to_string(), value: Some("https://b/s.yml".to_string()) },
    ];
    assert_eq!(source::schema_url_attr(&attrs), Some("https://a/s.yml".to_string()));
    assert_eq!(source::schema_url_attr(&attrs[..1].iter().map(|a| SchemaAttr {
        name: a.name.clone(),
        value: a.value.clone(),
    }).collect()), None);
}

#[test]
fn yaml_lookups() {
    let doc = YamlNode::Hash(vec![
        (YamlNode::String("a".into()), YamlNode::Integer(1)),
        (YamlNode::Integer(2), YamlNode::Boolean(true)),
        (YamlNode::String("a".into()), YamlNode::Integer(3)),
        (YamlNode::String("list".into()), YamlNode::Array(vec![YamlNode::String("x".into())])),
    ]);
    assert_eq!(doc.get("a").and_then(|v| v.as_i64()), Some(1));
    assert!(doc.get("b").is_none());
    assert_eq!(doc.get("list").and_then(|l| l.item(0)).and_then(|x| x.as_str()), Some("x"));
    assert!(doc.get("list").and_then(|l| l.item(1)).is_none());
    assert_eq!(doc.str_at("a"), None);
    assert!(YamlNode::Null.get("a").is_none());
    assert_eq!(YamlNode::Boolean(false).as_bool(), Some(false));
}

#[test]
fn malformed_json_body_is_not_read() {
    let r = ClientResponse::new(200, "{not json".to_string());
    assert!(json_response::try_deser_body(Some(&r)).is_none());
    let ok = ClientResponse::new(200, "[1, 2]".to_string());
    assert_eq!(json_response::try_deser_body(Some(&ok)).unwrap()[1], 2);
    assert!(json_response::try_deser_body(None).unwrap().is_null());
}

#[test]
fn json_results_follow_the_status() {
    let ok = ClientResponse::new(200, "{\"a\": 1}".to_string());
    match json_response::try_result_from(Some(&ok)) {
        Some(Ok(r)) => {
            assert_eq!(r.status_code.to_u16(), 200);
            assert_eq!(r.body["a"], 1);
        },
        _ => panic!("a 200 response is a success"),
    }
    let bad = ClientResponse::new(404, "null".to_string());
    assert!(matches!(json_response::try_result_from(Some(&bad)), Some(Err(_))));
    let garbled = ClientResponse::new(200, "{".to_string());
    assert!(json_response::try_result_from(Some(&garbled)).is_none());
    assert!(json_response::body_is_json(None));
}
