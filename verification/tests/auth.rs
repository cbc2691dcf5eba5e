use tapioca::auth::ApiKey;
use tapioca::auth::HeaderError;
use tapioca::auth::HttpBasic;

fn basic(user: &str, password: &str) -> HttpBasic {
    HttpBasic::from((user.to_string(), password.to_string()))
}

#[test]
fn from_pair_sets_user_and_password() {
    let auth = basic("Foo", "wrong");
    assert_eq!(auth.user, "Foo");
    assert_eq!(auth.password, "wrong");
}

#[test]
fn header_value_is_basic_and_base64() {
    let auth = basic("Aladdin", "open sesame");
    assert_eq!(auth.fmt(), "Basic QWxhZGRpbjpvcGVuIHNlc2FtZQ==");
    assert_eq!(auth.fmt_header(), auth.fmt());
    assert_eq!(HttpBasic::header_name(), "Authorization");
}

#[test]
fn token_reads_back_as_the_credentials() {
    let auth = basic("Foo", "hunter2");
    let value = auth.fmt();
    let token = value.strip_prefix("Basic ").unwrap();
    let parsed = HttpBasic::parse_header(&vec![token.as_bytes().to_vec()]).unwrap();
    assert_eq!(parsed.user, "Foo");
    assert_eq!(parsed.password, "hunter2");
}

#[test]
fn password_stops_at_the_second_colon() {
    let raw = vec![b"dXNlcjpwYXNzOmV4dHJh".to_vec()]; // user:pass:extra
    let parsed = HttpBasic::parse_header(&raw).unwrap();
    assert_eq!(parsed.user, "user");
    assert_eq!(parsed.password, "pass");
}

#[test]
fn non_utf8_credentials_are_refused() {
    let raw = vec![b"/zo=".to_vec()]; // the bytes 0xff 0x3a
    assert_eq!(HttpBasic::parse_header(&raw).unwrap_err(), HeaderError::InvalidUtf8);
    assert_eq!(HttpBasic::try_parse_header(&raw).unwrap().unwrap_err(), HeaderError::InvalidUtf8);
}

#[test]
fn unreadable_headers_are_not_parsed() {
    assert!(HttpBasic::try_parse_header(&vec![]).is_none());
    assert!(HttpBasic::try_parse_header(&vec![b"not base64!".to_vec()]).is_none());
    assert!(HttpBasic::try_parse_header(&vec![b"bm9jb2xvbg==".to_vec()]).is_none()); // nocolon
    let ok = HttpBasic::try_parse_header(&vec![b"YTpi".to_vec()]).unwrap().unwrap(); // a:b
    assert_eq!((ok.user.as_str(), ok.password.as_str()), ("a", "b"));
}

#[test]
fn api_key_is_written_as_it_is_and_read_back() {
    let key = ApiKey::new("X-API-Key".to_string(), "s3cr3t".to_string());
    assert_eq!(key.header_name(), "X-API-Key");
    assert_eq!(key.fmt_header(), "s3cr3t");
    let raw = vec![key.fmt_header().into_bytes()];
    let read = ApiKey::parse_header("X-API-Key", &raw).unwrap();
    assert_eq!(read.key, "s3cr3t");
    assert_eq!(read.header, "X-API-Key");
    assert_eq!(ApiKey::parse_header("X-API-Key", &vec![vec![0xff]]).err(), Some(HeaderError::InvalidUtf8));
    assert!(ApiKey::try_parse_header("X-API-Key", &Vec::new()).is_none());
}
