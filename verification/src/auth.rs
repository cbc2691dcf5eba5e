//! HTTP Basic authentication: credentials, the `Authorization` header value
//! that carries them, and reading them back from such a header.
use vstd::prelude::*;
use vstd::utf8::*;

use crate::text::lemma_split_two;
use crate::text::push_str;
use crate::text::spec_split;
use crate::text::split_on;
use crate::text::string_of;
use crate::text::contains_char;

verus! {

/// The error of `base64::decode`.
#[verifier::external_type_specification]
#[verifier::external_body]
pub struct ExBase64DecodeError(base64::DecodeError);

/// The error of `String::from_utf8`.
#[verifier::external_type_specification]
#[verifier::external_body]
pub struct ExFromUtf8Error(std::string::FromUtf8Error);

/// The character of a 6-bit value in the standard base64 alphabet.
pub open spec fn spec_base64_char(v: int) -> char {
    if v < 26 {
        (65 + v) as char
    } else if v < 52 {
        (97 + v - 26) as char
    } else if v < 62 {
        (48 + v - 52) as char
    } else if v == 62 {
        '+'
    } else {
        '/'
    }
}

/// The standard padded base64 text of some bytes, as `base64::encode`
/// writes it: each three bytes as four characters, a last one or two bytes
/// padded with `=`.
pub open spec fn spec_base64_encode(bytes: Seq<u8>) -> Seq<char>
    decreases bytes.len(),
{
    if bytes.len() == 0 {
        Seq::empty()
    } else if bytes.len() == 1 {
        let b0 = bytes[0] as int;
        seq![spec_base64_char(b0 / 4), spec_base64_char((b0 % 4) * 16), '=', '=']
    } else if bytes.len() == 2 {
        let b0 = bytes[0] as int;
        let b1 = bytes[1] as int;
        seq![
            spec_base64_char(b0 / 4),
            spec_base64_char((b0 % 4) * 16 + b1 / 16),
            spec_base64_char((b1 % 16) * 4),
            '=',
        ]
    } else {
        let b0 = bytes[0] as int;
        let b1 = bytes[1] as int;
        let b2 = bytes[2] as int;
        seq![
            spec_base64_char(b0 / 4),
            spec_base64_char((b0 % 4) * 16 + b1 / 16),
            spec_base64_char((b1 % 16) * 4 + b2 / 64),
            spec_base64_char(b2 % 64),
        ] + spec_base64_encode(bytes.subrange(3, bytes.len() as int))
    }
}

/// The bytes that `base64::decode` reads from some text, if it reads any.
pub uninterp spec fn spec_base64_decode(text: Seq<u8>) -> Option<Seq<u8>>;

/// `base64::encode` with the standard alphabet and padding. The contract
/// states its result and the crate's round trip: decoding the encoded text
/// gives back the input bytes.
#[verifier::external_body]
fn base64_encode(bytes: &[u8]) -> (res: String)
    ensures
        res@ == spec_base64_encode(bytes@),
        spec_base64_decode(encode_utf8(res@)) == Some(bytes@),
{
    base64::encode(bytes)
}

/// `base64::decode` with the standard alphabet. The contract names the
/// decoded bytes; it does not say which texts decode.
#[verifier::external_body]
fn base64_decode(text: &[u8]) -> (res: Result<Vec<u8>, base64::DecodeError>)
    ensures
        res matches Ok(v) ==> spec_base64_decode(text@) == Some(v@),
        res is Err ==> spec_base64_decode(text@) is None,
{
    base64::decode(text)
}

/// `String::from_utf8`: succeeds exactly on valid UTF-8, with the decoded
/// characters.
#[verifier::external_body]
fn string_from_utf8(bytes: Vec<u8>) -> (res: Result<String, std::string::FromUtf8Error>)
    ensures
        res is Ok <==> valid_utf8(bytes@),
        res matches Ok(s) ==> s@ == decode_utf8(bytes@),
{
    String::from_utf8(bytes)
}

/// Why a header could not be read.
#[derive(Clone, Copy, Debug, PartialEq, Eq, Structural)]
pub enum HeaderError {
    /// The decoded credentials are not UTF-8 text.
    InvalidUtf8,
}

/// A user name and password for HTTP Basic authentication.
#[derive(Clone, Debug)]
pub struct HttpBasic {
    pub user: String,
    pub password: String,
}

/// `user:password`, the text that the header encodes.
pub open spec fn spec_credentials(user: Seq<char>, password: Seq<char>) -> Seq<char> {
    user + seq![':'] + password
}

/// The base64 token of the credentials.
pub open spec fn spec_token(user: Seq<char>, password: Seq<char>) -> Seq<char> {
    spec_base64_encode(encode_utf8(spec_credentials(user, password)))
}

/// The `Authorization` header value: `Basic ` and the token.
pub open spec fn spec_header_value(user: Seq<char>, password: Seq<char>) -> Seq<char> {
    seq!['B', 'a', 's', 'i', 'c', ' '] + spec_token(user, password)
}

/// What decoded credentials read as: the text before the first `:` and the
/// text between the first and second `:`, or the error on non-UTF-8 bytes.
pub open spec fn spec_read_credentials(decoded: Seq<u8>) -> Result<
    (Seq<char>, Seq<char>),
    HeaderError,
> {
    if !valid_utf8(decoded) {
        Err(HeaderError::InvalidUtf8)
    } else {
        let parts = spec_split(decode_utf8(decoded), ':');
        Ok((parts[0], parts[1]))
    }
}

/// The decoded credentials can be read without a missing field: they are
/// not UTF-8, or they hold a `:`.
pub open spec fn spec_credentials_readable(decoded: Seq<u8>) -> bool {
    valid_utf8(decoded) ==> decode_utf8(decoded).contains(':')
}

/// A header line can be read: it decodes as base64 into readable credentials.
pub open spec fn spec_header_readable(line: Seq<u8>) -> bool {
    &&& spec_base64_decode(line) is Some
    &&& spec_credentials_readable(spec_base64_decode(line).unwrap())
}

/// What reading a header line gives.
pub open spec fn spec_parse_header(line: Seq<u8>) -> Result<(Seq<char>, Seq<char>), HeaderError> {
    spec_read_credentials(spec_base64_decode(line).unwrap())
}

proof fn lemma_split_has_two(s: Seq<char>)
    requires
        s.contains(':'),
    ensures
        spec_split(s, ':').len() >= 2,
    decreases s.len(),
{
    crate::text::lemma_split_nonempty(s.drop_last(), ':');
    if s.last() != ':' {
        assert(s.drop_last().contains(':')) by {
            let k = choose|k: int| 0 <= k < s.len() && s[k] == ':';
            assert(k != s.len() - 1);
            assert(s.drop_last()[k] == ':');
        }
        lemma_split_has_two(s.drop_last());
    }
}


impl From<(String, String)> for HttpBasic {
    fn from(pair: (String, String)) -> (res: HttpBasic) {
        let (user, password) = pair;
        HttpBasic { user, password }
    }
}

impl vstd::std_specs::convert::FromSpecImpl<(String, String)> for HttpBasic {
    open spec fn obeys_from_spec() -> bool {
        true
    }

    /// The first string is the user, the second the password.
    open spec fn from_spec(pair: (String, String)) -> HttpBasic {
        HttpBasic { user: pair.0, password: pair.1 }
    }
}

impl HttpBasic {
    pub open spec fn spec_view(&self) -> (Seq<char>, Seq<char>) {
        (self.user@, self.password@)
    }

    /// The name of the header that carries the credentials.
    pub fn header_name() -> (name: &'static str)
        ensures
            name@ == "Authorization"@,
    {
        "Authorization"
    }

    /// The `Authorization` header value: `Basic ` followed by the base64 of
    /// `user:password`. Reading the token back gives the credentials again
    /// when neither the user nor the password holds a `:`.
    pub fn fmt(&self) -> (res: String)
        ensures
            res@ == spec_header_value(self.user@, self.password@),
            !self.user@.contains(':') && !self.password@.contains(':') ==> {
                let line = encode_utf8(spec_token(self.user@, self.password@));
                &&& spec_header_readable(line)
                &&& spec_parse_header(line) == Ok::<(Seq<char>, Seq<char>), HeaderError>(
                    (self.user@, self.password@),
                )
            },
    {
        let mut raw = string_of(self.user.as_str());
        push_str(&mut raw, ":");
        push_str(&mut raw, self.password.as_str());
        proof {
            reveal_strlit(":");
            assert(raw@ =~= spec_credentials(self.user@, self.password@));
        }
        let encoded = base64_encode(raw.as_str().as_bytes());
        let mut res = string_of("Basic ");
        push_str(&mut res, encoded.as_str());
        proof {
            reveal_strlit("Basic ");
            assert(res@ =~= spec_header_value(self.user@, self.password@));
            let cred = spec_credentials(self.user@, self.password@);
            let line = encode_utf8(spec_token(self.user@, self.password@));
            if !self.user@.contains(':') && !self.password@.contains(':') {
                encode_utf8_valid_utf8(cred);
                encode_utf8_decode_utf8(cred);
                assert(spec_base64_decode(line) == Some(encode_utf8(cred)));
                assert(cred.contains(':')) by {
                    assert(cred[self.user@.len() as int] == ':');
                }
                lemma_split_two(self.user@, self.password@, ':');
            }
        }
        res
    }

    /// The header as it is written on the wire: the same value as `fmt`.
    pub fn fmt_header(&self) -> (res: String)
        ensures
            res@ == spec_header_value(self.user@, self.password@),
    {
        self.fmt()
    }

    /// Reads credentials from base64-decoded header bytes.
    pub fn read_credentials(decoded: Vec<u8>) -> (res: Result<HttpBasic, HeaderError>)
        requires
            spec_credentials_readable(decoded@),
        ensures
            match (res, spec_read_credentials(decoded@)) {
                (Ok(h), Ok(v)) => h.spec_view() == v,
                (Err(e), Err(f)) => e == f,
                _ => false,
            },
    {
        let text = match string_from_utf8(decoded) {
            Ok(s) => s,
            Err(_) => {
                return Err(HeaderError::InvalidUtf8);
            },
        };
        let parts = split_on(text.as_str(), ':');
        proof {
            lemma_split_has_two(text@);
        }
        let user = parts[0].clone();
        let password = parts[1].clone();
        Ok(HttpBasic { user, password })
    }

    /// Reads credentials from the first line of an `Authorization` header
    /// that holds the base64 of `user:password`.
    pub fn parse_header(raw: &Vec<Vec<u8>>) -> (res: Result<HttpBasic, HeaderError>)
        requires
            raw@.len() > 0,
            spec_header_readable(raw@[0]@),
        ensures
            match (res, spec_parse_header(raw@[0]@)) {
                (Ok(h), Ok(v)) => h.spec_view() == v,
                (Err(e), Err(f)) => e == f,
                _ => false,
            },
    {
        let encoded = &raw[0];
        match base64_decode(encoded.as_slice()) {
            Ok(decoded) => HttpBasic::read_credentials(decoded),
            Err(_) => {
                proof {
                    assert(false);
                }
                Err(HeaderError::InvalidUtf8)
            },
        }
    }
    /// Reads credentials from the first header line where `parse_header`
    /// can: `None` when there is no line, the line is not base64, or its
    /// text has no `:` to separate the password.
    pub fn try_parse_header(raw: &Vec<Vec<u8>>) -> (res: Option<Result<HttpBasic, HeaderError>>)
        ensures
            res is Some <==> (raw@.len() > 0 && spec_header_readable(raw@[0]@)),
            res matches Some(r) ==> match (r, spec_parse_header(raw@[0]@)) {
                (Ok(h), Ok(v)) => h.spec_view() == v,
                (Err(e), Err(f)) => e == f,
                _ => false,
            },
    {
        if raw.len() == 0 {
            return None;
        }
        match base64_decode(raw[0].as_slice()) {
            Err(_) => None,
            Ok(decoded) => {
                if credentials_readable(&decoded) {
                    Some(HttpBasic::parse_header(raw))
                } else {
                    None
                }
            },
        }
    }
}

/// Whether decoded credentials can be read without a missing field.
fn credentials_readable(decoded: &Vec<u8>) -> (b: bool)
    ensures
        b == spec_credentials_readable(decoded@),
{
    let copy = decoded.clone();
    assert(copy@ =~= decoded@);
    match string_from_utf8(copy) {
        Err(_) => true,
        Ok(text) => contains_char(text.as_str(), ':'),
    }
}

/// An API key, sent as the whole value of the header that the API's
/// security scheme names.
#[derive(Clone, Debug)]
pub struct ApiKey {
    /// The name of the header.
    pub header: String,
    /// The key, written to the header as it is.
    pub key: String,
}

/// What a header line reads as for an API key: its UTF-8 text, or the error
/// on bytes that are not UTF-8.
pub open spec fn spec_parse_api_key(line: Seq<u8>) -> Result<Seq<char>, HeaderError> {
    if valid_utf8(line) {
        Ok(decode_utf8(line))
    } else {
        Err(HeaderError::InvalidUtf8)
    }
}

impl ApiKey {
    /// The key `key` for the header named `header`, kept unchanged.
    pub fn new(header: String, key: String) -> (k: ApiKey)
        ensures
            k.header@ == header@,
            k.key@ == key@,
    {
        ApiKey { header, key }
    }

    /// The name of the header that carries the key.
    pub fn header_name(&self) -> (name: &str)
        ensures
            name@ == self.header@,
    {
        self.header.as_str()
    }

    /// The header value: the key itself.
    pub fn fmt_header(&self) -> (value: String)
        ensures
            value@ == self.key@,
    {
        string_of(self.key.as_str())
    }

    /// Reads the key from the first line of the header named `header`.
    pub fn parse_header(header: &str, raw: &Vec<Vec<u8>>) -> (res: Result<ApiKey, HeaderError>)
        requires
            raw@.len() > 0,
        ensures
            match (res, spec_parse_api_key(raw@[0]@)) {
                (Ok(k), Ok(v)) => k.header@ == header@ && k.key@ == v,
                (Err(e), Err(f)) => e == f,
                _ => false,
            },
    {
        let line = raw[0].clone();
        assert(line@ =~= raw@[0]@);
        match string_from_utf8(line) {
            Ok(key) => Ok(ApiKey { header: string_of(header), key }),
            Err(_) => Err(HeaderError::InvalidUtf8),
        }
    }

    /// Reads the key where `parse_header` can: `None` when there is no line.
    pub fn try_parse_header(header: &str, raw: &Vec<Vec<u8>>) -> (res: Option<Result<ApiKey, HeaderError>>)
        ensures
            res is Some <==> raw@.len() > 0,
            res matches Some(r) ==> match (r, spec_parse_api_key(raw@[0]@)) {
                (Ok(k), Ok(v)) => k.header@ == header@ && k.key@ == v,
                (Err(e), Err(f)) => e == f,
                _ => false,
            },
    {
        if raw.len() == 0 {
            None
        } else {
            Some(ApiKey::parse_header(header, raw))
        }
    }
}

/// Reading back the header value that an API key writes, as UTF-8 bytes,
/// gives the key again.
pub proof fn lemma_api_key_round_trip(key: Seq<char>)
    ensures
        spec_parse_api_key(encode_utf8(key)) == Ok::<Seq<char>, HeaderError>(key),
{
    encode_utf8_valid_utf8(key);
    encode_utf8_decode_utf8(key);
}

} // verus!
