//! Responses whose body is read as an untyped JSON value.
use vstd::prelude::*;

use crate::response::ClientResponse;
use crate::response::StatusCode;
use crate::response::status::spec_status_ok;
use crate::response::status::NO_RESPONSE_CODE;

verus! {

/// `serde_json::Value`, carried through unread.
#[verifier::external_type_specification]
#[verifier::external_body]
pub struct ExJsonValue(serde_json::Value);

/// The error of `serde_json::from_str`.
#[verifier::external_type_specification]
#[verifier::external_body]
pub struct ExJsonError(serde_json::Error);

/// The JSON value that `serde_json::from_str` reads from a text, if the
/// text is JSON.
pub uninterp spec fn spec_json_parse(text: Seq<char>) -> Option<serde_json::Value>;

/// `serde_json::from_str` into an untyped value. The contract names the
/// outcome; it does not say which texts are JSON.
#[verifier::external_body]
fn json_from_str(text: &str) -> (res: Result<serde_json::Value, serde_json::Error>)
    ensures
        res matches Ok(v) ==> spec_json_parse(text@) == Some(v),
        res is Err ==> spec_json_parse(text@) is None,
{
    serde_json::from_str(text)
}

/// `serde_json::Value::Null`: the value that the text `null` reads as.
#[verifier::external_body]
fn json_null() -> (v: serde_json::Value)
    ensures
        spec_json_parse(seq!['n', 'u', 'l', 'l']) == Some(v),
{
    serde_json::Value::Null
}

/// The body of a response: its JSON value.
pub type Body = serde_json::Value;

/// The status of a response: informational, a success or a redirection.
pub fn is_ok(status: &StatusCode) -> (b: bool)
    ensures
        b == spec_status_ok(status.code),
{
    status.is_success() || status.is_informational() || status.is_redirection()
}

/// The body holds JSON, where there is a body.
pub open spec fn spec_body_readable(response: Option<&ClientResponse>) -> bool {
    match response {
        Some(r) => spec_json_parse(r.body@) is Some,
        None => true,
    }
}

/// The JSON value of a response's body; JSON `null` when there was no
/// response.
pub open spec fn spec_deser_body(response: Option<&ClientResponse>) -> Body {
    match response {
        Some(r) => spec_json_parse(r.body@).unwrap(),
        None => spec_json_parse(seq!['n', 'u', 'l', 'l']).unwrap(),
    }
}

/// The status of a response; the no-response code when there was none.
pub open spec fn spec_deser_status(response: Option<&ClientResponse>) -> StatusCode {
    match response {
        Some(r) => r.status,
        None => StatusCode { code: NO_RESPONSE_CODE },
    }
}

/// Reads a response's body as JSON.
pub fn deser_body(response: Option<&ClientResponse>) -> (res: Body)
    requires
        spec_body_readable(response),
    ensures
        res == spec_deser_body(response),
{
    match response {
        Some(r) => match json_from_str(r.body.as_str()) {
            Ok(v) => v,
            Err(_) => {
                proof {
                    assert(false);
                }
                json_null()
            },
        },
        None => json_null(),
    }
}

/// Reads a response's body as JSON where it can: `None` when the body is
/// not JSON.
pub fn try_deser_body(response: Option<&ClientResponse>) -> (res: Option<Body>)
    ensures
        res is Some <==> spec_body_readable(response),
        res matches Some(b) ==> b == spec_deser_body(response),
{
    if body_is_json(response) {
        Some(deser_body(response))
    } else {
        None
    }
}

/// Whether the body holds JSON, where there is a body.
pub fn body_is_json(response: Option<&ClientResponse>) -> (b: bool)
    ensures
        b == spec_body_readable(response),
{
    match response {
        Some(r) => json_from_str(r.body.as_str()).is_ok(),
        None => true,
    }
}

/// The status of a response, or the no-response code.
pub fn deser_status(response: &Option<&ClientResponse>) -> (s: StatusCode)
    ensures
        s == spec_deser_status(*response),
{
    match *response {
        Some(r) => r.status,
        None => StatusCode::from_u16(NO_RESPONSE_CODE),
    }
}

/// A response with its body read as a JSON value.
pub trait Response: Sized {
    /// The inputs on which `from` is defined. Each spec item of this trait
    /// is unspecified for a type that does not state it.
    closed spec fn spec_from_requires(maybe_response: Option<&ClientResponse>) -> bool {
        arbitrary()
    }

    /// What `from` builds.
    closed spec fn spec_from(maybe_response: Option<&ClientResponse>) -> Self {
        arbitrary()
    }

    closed spec fn spec_body(&self) -> Body {
        arbitrary()
    }

    closed spec fn spec_status_code(&self) -> StatusCode {
        arbitrary()
    }

    fn from(maybe_response: Option<&ClientResponse>) -> (res: Self)
        requires
            Self::spec_from_requires(maybe_response),
        ensures
            res == Self::spec_from(maybe_response),
    ;

    fn body(&self) -> (b: &Body)
        ensures
            *b == self.spec_body(),
    ;

    fn status_code(&self) -> (s: StatusCode)
        ensures
            s == self.spec_status_code(),
    ;
}

/// A response with a successful status.
pub struct OkResponse {
    pub body: Body,
    pub status_code: StatusCode,
}

/// A response with a failed status, or the absence of a response.
pub struct ErrResponse {
    pub body: Body,
    pub status_code: StatusCode,
}

/// The response, sorted by its status.
pub type ResponseResult = Result<OkResponse, ErrResponse>;

impl Response for OkResponse {
    /// There is a response, its status is successful and its body is JSON.
    open spec fn spec_from_requires(maybe_response: Option<&ClientResponse>) -> bool {
        match maybe_response {
            Some(r) => spec_status_ok(r.status.code) && spec_json_parse(r.body@) is Some,
            None => false,
        }
    }

    open spec fn spec_from(maybe_response: Option<&ClientResponse>) -> Self {
        OkResponse {
            body: spec_deser_body(maybe_response),
            status_code: spec_deser_status(maybe_response),
        }
    }

    open spec fn spec_body(&self) -> Body {
        self.body
    }

    open spec fn spec_status_code(&self) -> StatusCode {
        self.status_code
    }

    fn from(maybe_response: Option<&ClientResponse>) -> (res: Self) {
        let status_code = match maybe_response {
            Some(response) => response.status,
            None => {
                proof {
                    assert(false);
                }
                StatusCode::from_u16(NO_RESPONSE_CODE)
            },
        };
        OkResponse { body: deser_body(maybe_response), status_code }
    }

    fn body(&self) -> (b: &Body) {
        &self.body
    }

    fn status_code(&self) -> (s: StatusCode) {
        self.status_code
    }
}

impl Response for ErrResponse {
    /// There is no response, or its status failed and its body is JSON.
    open spec fn spec_from_requires(maybe_response: Option<&ClientResponse>) -> bool {
        match maybe_response {
            Some(r) => !spec_status_ok(r.status.code) && spec_json_parse(r.body@) is Some,
            None => true,
        }
    }

    open spec fn spec_from(maybe_response: Option<&ClientResponse>) -> Self {
        ErrResponse {
            body: spec_deser_body(maybe_response),
            status_code: spec_deser_status(maybe_response),
        }
    }

    open spec fn spec_body(&self) -> Body {
        self.body
    }

    open spec fn spec_status_code(&self) -> StatusCode {
        self.status_code
    }

    fn from(maybe_response: Option<&ClientResponse>) -> (res: Self) {
        let status_code = deser_status(&maybe_response);
        match maybe_response {
            Some(_) => ErrResponse { body: deser_body(maybe_response), status_code },
            None => ErrResponse { body: deser_body(None), status_code: deser_status(&None) },
        }
    }

    fn body(&self) -> (b: &Body) {
        &self.body
    }

    fn status_code(&self) -> (s: StatusCode) {
        self.status_code
    }
}

/// The response failed: there is none, or its status is not successful.
pub open spec fn spec_is_failure(maybe_response: Option<&ClientResponse>) -> bool {
    match maybe_response {
        Some(r) => !spec_status_ok(r.status.code),
        None => true,
    }
}

impl Response for ResponseResult {
    /// A successful response goes to `OkResponse::from`; a failed one, or
    /// none, to `ErrResponse::from`.
    open spec fn spec_from_requires(maybe_response: Option<&ClientResponse>) -> bool {
        match maybe_response {
            Some(_) => if spec_is_failure(maybe_response) {
                ErrResponse::spec_from_requires(maybe_response)
            } else {
                OkResponse::spec_from_requires(maybe_response)
            },
            None => ErrResponse::spec_from_requires(None),
        }
    }

    open spec fn spec_from(maybe_response: Option<&ClientResponse>) -> Self {
        match maybe_response {
            Some(_) => if spec_is_failure(maybe_response) {
                Err(ErrResponse::spec_from(maybe_response))
            } else {
                Ok(OkResponse::spec_from(maybe_response))
            },
            None => Err(ErrResponse::spec_from(None)),
        }
    }

    open spec fn spec_body(&self) -> Body {
        match self {
            Ok(s) => s.spec_body(),
            Err(s) => s.spec_body(),
        }
    }

    open spec fn spec_status_code(&self) -> StatusCode {
        match self {
            Ok(s) => s.spec_status_code(),
            Err(s) => s.spec_status_code(),
        }
    }

    fn from(maybe_response: Option<&ClientResponse>) -> (res: Self) {
        let error = match maybe_response {
            Some(response) => !is_ok(&response.status),
            None => true,
        };
        match maybe_response {
            Some(_) => if error {
                Err(<ErrResponse as Response>::from(maybe_response))
            } else {
                Ok(<OkResponse as Response>::from(maybe_response))
            },
            None => Err(<ErrResponse as Response>::from(None)),
        }
    }

    fn body(&self) -> (b: &Body) {
        match self {
            Ok(s) => s.body(),
            Err(s) => s.body(),
        }
    }

    fn status_code(&self) -> (s: StatusCode) {
        match self {
            Ok(s) => s.status_code(),
            Err(s) => s.status_code(),
        }
    }
}

/// The response sorted by its status, where its body can be read: `None`
/// when the body is not JSON.
pub fn try_result_from(maybe_response: Option<&ClientResponse>) -> (res: Option<ResponseResult>)
    ensures
        res is Some <==> spec_body_readable(maybe_response),
        res matches Some(r) ==> r == <ResponseResult as Response>::spec_from(maybe_response),
{
    if body_is_json(maybe_response) {
        Some(<ResponseResult as Response>::from(maybe_response))
    } else {
        None
    }
}

/// A response result is `Ok` exactly when the server answered with a
/// status that is informational, a success or a redirection; its body is
/// then read as JSON wherever the result can be built.
pub proof fn lemma_result_ok_iff_status_ok(maybe_response: Option<&ClientResponse>)
    ensures
        (<ResponseResult as Response>::spec_from(maybe_response) is Ok) <==> (match maybe_response {
            Some(r) => spec_status_ok(r.status.code),
            None => false,
        }),
        <ResponseResult as Response>::spec_from_requires(maybe_response) <==> spec_body_readable(maybe_response),
{
}

} // verus!
