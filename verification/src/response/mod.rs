pub mod body;
pub mod status;

pub use self::body::ResponseBody;
pub use self::body::ResponseResultBody;
pub use self::status::Status;
pub use self::status::StatusCode;

use vstd::prelude::*;

verus! {

/// What a client holds of the server's reply once it has been received: its
/// status code and the text of its body.
pub struct ClientResponse {
    pub status: StatusCode,
    pub body: String,
}

impl ClientResponse {
    pub fn new(status: u16, body: String) -> (r: ClientResponse)
        ensures
            r.status.code == status,
            r.body@ == body@,
    {
        ClientResponse { status: StatusCode { code: status }, body }
    }

    /// The status line's code.
    pub fn status(&self) -> (s: StatusCode)
        ensures
            s == self.status,
    {
        self.status
    }
}

/// `Ok` carries a response with a successful status, `Err` any other.
pub type ResponseResult<O, E> = Result<O, E>;

/// A response of one API operation, built from what the server sent back
/// (or from its absence, when the request failed on the network).
pub trait Response: Sized {
    type BodyType: ResponseBody;

    /// The inputs on which `from` is defined. Each spec item of this trait
    /// is unspecified for a type that does not state it.
    closed spec fn spec_from_requires(maybe_response: Option<&ClientResponse>) -> bool {
        arbitrary()
    }

    /// What `from` builds.
    closed spec fn spec_from(maybe_response: Option<&ClientResponse>) -> Self {
        arbitrary()
    }

    closed spec fn spec_body(&self) -> Self::BodyType {
        arbitrary()
    }

    closed spec fn spec_status_code(&self) -> StatusCode {
        arbitrary()
    }

    fn from(maybe_response: Option<&ClientResponse>) -> (res: Self)
        requires
            Self::spec_from_requires(maybe_response),
        ensures
            res == Self::spec_from(maybe_response),
            res.spec_status_code() == StatusCode::spec_of(maybe_response),
    ;

    fn body(&self) -> (b: Self::BodyType)
        ensures
            b == self.spec_body(),
    ;

    fn status_code(&self) -> (s: StatusCode)
        ensures
            s == self.spec_status_code(),
    ;

    fn is_ok(&self) -> (b: bool)
        ensures
            b == status::spec_status_ok(self.spec_status_code().code),
    {
        self.status_code().is_ok()
    }
}

/// The request failed, or the server answered with a status that is not
/// informational, a success or a redirection.
pub open spec fn spec_is_error(maybe_response: Option<&ClientResponse>) -> bool {
    match maybe_response {
        Some(r) => !status::spec_status_ok(r.status.code),
        None => true,
    }
}

fn is_error(maybe_response: Option<&ClientResponse>) -> (b: bool)
    ensures
        b == spec_is_error(maybe_response),
{
    match maybe_response {
        Some(response) => StatusCode::of(&Some(response)).is_err(),
        None => true,
    }
}

impl<O: Response, E: Response> Response for ResponseResult<O, E> {
    type BodyType = ResponseResultBody<O::BodyType, E::BodyType>;

    open spec fn spec_from_requires(maybe_response: Option<&ClientResponse>) -> bool {
        if spec_is_error(maybe_response) {
            E::spec_from_requires(maybe_response)
        } else {
            O::spec_from_requires(maybe_response)
        }
    }

    open spec fn spec_from(maybe_response: Option<&ClientResponse>) -> Self {
        if spec_is_error(maybe_response) {
            Err(E::spec_from(maybe_response))
        } else {
            Ok(O::spec_from(maybe_response))
        }
    }

    open spec fn spec_body(&self) -> Self::BodyType {
        match self {
            Ok(s) => Ok(s.spec_body()),
            Err(s) => Err(s.spec_body()),
        }
    }

    open spec fn spec_status_code(&self) -> StatusCode {
        match self {
            Ok(s) => s.spec_status_code(),
            Err(s) => s.spec_status_code(),
        }
    }

    fn from(maybe_response: Option<&ClientResponse>) -> (res: Self) {
        let error = is_error(maybe_response);
        match maybe_response {
            Some(_) => if error {
                Err(E::from(maybe_response))
            } else {
                Ok(O::from(maybe_response))
            },
            None => Err(E::from(None)),
        }
    }

    fn body(&self) -> (b: Self::BodyType) {
        match self {
            Ok(s) => Ok(s.body()),
            Err(s) => Err(s.body()),
        }
    }

    fn status_code(&self) -> (s: StatusCode) {
        match self {
            Ok(s) => s.status_code(),
            Err(s) => s.status_code(),
        }
    }
}

/// A response result is `Ok` exactly when the server answered with a status
/// that is informational, a success or a redirection; a request that got no
/// answer is an `Err`.
pub proof fn lemma_result_ok_iff_status_ok<O: Response, E: Response>(
    maybe_response: Option<&ClientResponse>,
)
    ensures
        (ResponseResult::<O, E>::spec_from(maybe_response) is Ok) <==> (match maybe_response {
            Some(r) => status::spec_status_ok(r.status.code),
            None => false,
        }),
{
}

} // verus!
