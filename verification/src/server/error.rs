use vstd::prelude::*;

verus! {

/// Why a request was turned down.
#[derive(Debug, Clone, Copy, PartialEq, Eq, Structural)]
pub enum RouteError {
    /// The request is malformed: a field that must be filled is empty, or one
    /// that must be absent is there.
    BadRequest,
    /// The password does not match.
    Unauthorized,
    /// The requester may not do this, or the row is still referenced.
    Forbidden,
    /// Nothing answers to the given name.
    NotFound,
    /// The e-mail address is already registered.
    Conflict,
    /// The tables could not carry the request out.
    Internal,
}

impl RouteError {
    pub fn new_bad_request() -> (e: RouteError)
        ensures
            e == RouteError::BadRequest,
    {
        RouteError::BadRequest
    }

    pub fn new_unauthorized() -> (e: RouteError)
        ensures
            e == RouteError::Unauthorized,
    {
        RouteError::Unauthorized
    }

    pub fn new_forbidden() -> (e: RouteError)
        ensures
            e == RouteError::Forbidden,
    {
        RouteError::Forbidden
    }

    pub fn new_not_found() -> (e: RouteError)
        ensures
            e == RouteError::NotFound,
    {
        RouteError::NotFound
    }

    /// The HTTP status that carries this error.
    pub open spec fn spec_status_code(self) -> u16 {
        match self {
            RouteError::BadRequest => 400,
            RouteError::Unauthorized => 401,
            RouteError::Forbidden => 403,
            RouteError::NotFound => 404,
            RouteError::Conflict => 500,
            RouteError::Internal => 500,
        }
    }

    #[verifier::when_used_as_spec(spec_status_code)]
    pub fn status_code(self) -> (code: u16)
        ensures
            code == self.spec_status_code(),
    {
        match self {
            RouteError::BadRequest => 400,
            RouteError::Unauthorized => 401,
            RouteError::Forbidden => 403,
            RouteError::NotFound => 404,
            RouteError::Conflict => 500,
            RouteError::Internal => 500,
        }
    }

    /// What the body of the reply says of this error.
    pub fn message(self) -> (message: &'static str)
        ensures
            message@ == match self {
                RouteError::BadRequest => "Bad request"@,
                RouteError::Unauthorized => "Unauthorized"@,
                RouteError::Forbidden => "Forbidden"@,
                RouteError::NotFound => "Not found"@,
                RouteError::Conflict => "The e-mail address is already registered"@,
                RouteError::Internal => "Internal server error"@,
            },
    {
        match self {
            RouteError::BadRequest => "Bad request",
            RouteError::Unauthorized => "Unauthorized",
            RouteError::Forbidden => "Forbidden",
            RouteError::NotFound => "Not found",
            RouteError::Conflict => "The e-mail address is already registered",
            RouteError::Internal => "Internal server error",
        }
    }
}

} // verus!
