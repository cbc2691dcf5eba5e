use vstd::prelude::*;

verus! {

/// The status code given to a request that got no response at all.
pub const NO_RESPONSE_CODE: u16 = 520;

/// An HTTP status code.
#[derive(Clone, Copy, Debug, PartialEq, Eq, Structural)]
pub struct StatusCode {
    pub code: u16,
}

/// Informational (1xx).
pub open spec fn spec_is_informational(code: u16) -> bool {
    100 <= code < 200
}

/// Success (2xx).
pub open spec fn spec_is_success(code: u16) -> bool {
    200 <= code < 300
}

/// Redirection (3xx).
pub open spec fn spec_is_redirection(code: u16) -> bool {
    300 <= code < 400
}

/// A status that the library treats as a successful exchange.
pub open spec fn spec_status_ok(code: u16) -> bool {
    spec_is_success(code) || spec_is_informational(code) || spec_is_redirection(code)
}

impl StatusCode {
    pub fn from_u16(code: u16) -> (s: StatusCode)
        ensures
            s.code == code,
    {
        StatusCode { code }
    }

    pub fn to_u16(&self) -> (c: u16)
        ensures
            c == self.code,
    {
        self.code
    }

    pub fn is_informational(&self) -> (b: bool)
        ensures
            b == spec_is_informational(self.code),
    {
        100 <= self.code && self.code < 200
    }

    pub fn is_success(&self) -> (b: bool)
        ensures
            b == spec_is_success(self.code),
    {
        200 <= self.code && self.code < 300
    }

    pub fn is_redirection(&self) -> (b: bool)
        ensures
            b == spec_is_redirection(self.code),
    {
        300 <= self.code && self.code < 400
    }
}

} // verus!

verus! {

/// A status code: what a response's status is, and whether it counts as a
/// successful exchange.
pub trait Status: Sized {
    type OfType;

    /// The status of a response, or of its absence.
    spec fn spec_of(response: Option<&Self::OfType>) -> Self;

    /// Whether the status counts as a successful exchange.
    spec fn spec_is_ok(&self) -> bool;

    fn of(response: &Option<&Self::OfType>) -> (s: Self)
        ensures
            s == Self::spec_of(*response),
    ;

    fn is_ok(&self) -> (b: bool)
        ensures
            b == self.spec_is_ok(),
    ;

    fn is_err(&self) -> (b: bool)
        ensures
            b == !self.spec_is_ok(),
    ;
}

impl Status for StatusCode {
    type OfType = super::ClientResponse;

    open spec fn spec_of(response: Option<&super::ClientResponse>) -> StatusCode {
        match response {
            Some(r) => r.status,
            None => StatusCode { code: NO_RESPONSE_CODE },
        }
    }

    open spec fn spec_is_ok(&self) -> bool {
        spec_status_ok(self.code)
    }

    fn of(response: &Option<&super::ClientResponse>) -> (s: StatusCode) {
        match *response {
            Some(r) => r.status,
            None => StatusCode::from_u16(NO_RESPONSE_CODE),
        }
    }

    fn is_ok(&self) -> (b: bool) {
        self.is_success() || self.is_informational() || self.is_redirection()
    }

    fn is_err(&self) -> (b: bool) {
        !self.is_ok()
    }
}

} // verus!
