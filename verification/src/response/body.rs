use vstd::prelude::*;

use super::ClientResponse;
use super::spec_is_error;
use super::is_error;

verus! {

/// The body of a response, decoded according to the response's status.
pub trait ResponseBody: Sized {
    /// The inputs on which `from` is defined; a type that does not state
    /// them leaves them unspecified.
    closed spec fn spec_from_requires(maybe_response: Option<&ClientResponse>) -> bool {
        arbitrary()
    }

    /// What `from` decodes; unspecified for a type that does not state it.
    closed spec fn spec_from(maybe_response: Option<&ClientResponse>) -> Self {
        arbitrary()
    }

    fn from(maybe_response: Option<&ClientResponse>) -> (res: Self)
        requires
            Self::spec_from_requires(maybe_response),
        ensures
            res == Self::spec_from(maybe_response),
    ;
}

/// The body of a successful response or the body of a failed one.
pub type ResponseResultBody<O, E> = Result<O, E>;

impl<O: ResponseBody, E: ResponseBody> ResponseBody for ResponseResultBody<O, E> {
    open spec fn spec_from_requires(maybe_response: Option<&ClientResponse>) -> bool {
        if spec_is_error(maybe_response) {
            E::spec_from_requires(maybe_response)
        } else {
            O::spec_from_requires(maybe_response)
        }
    }

    open spec fn spec_from(maybe_response: Option<&ClientResponse>) -> Self {
        if spec_is_error(maybe_response) {
            Err(E::spec_from(maybe_response))
        } else {
            Ok(O::spec_from(maybe_response))
        }
    }

    fn from(maybe_response: Option<&ClientResponse>) -> (res: Self) {
        let error = is_error(maybe_response);
        if error {
            Err(E::from(maybe_response))
        } else {
            Ok(O::from(maybe_response))
        }
    }
}

} // verus!
