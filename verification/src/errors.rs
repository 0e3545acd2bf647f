use vstd::prelude::*;

verus! {

/// A structured error reported by the external classification service:
/// the HTTP status it answered with and the message found in its body.
#[derive(Debug, Clone)]
pub struct ApiLayerError {
    pub status: u16,
    pub message: String,
}

/// The closed set of failure kinds this library produces. Every failure on
/// every path is one of these, and `return_error` renders each one exactly
/// once, at the request boundary.
#[derive(Debug, Clone)]
pub enum Error {
    /// A stored password hash could not be decoded.
    HashingFailure,
    /// The password did not match the stored hash.
    WrongCredential,
    /// A token could not be decrypted, carried malformed claims, or was
    /// outside its validity window; the three are deliberately
    /// indistinguishable to the caller.
    CannotDecryptToken,
    /// A credential was missing, invalid, or named an account that does not
    /// own the resource.
    Unauthorized,
    /// The external service answered with a client-error status.
    ClientError(ApiLayerError),
    /// The external service answered with a server-error status.
    ServerError(ApiLayerError),
    /// The external service could not be reached after the retries allowed,
    /// or a success response carried a body that did not parse.
    TransportError,
    /// A request body or parameter did not parse; the detail is echoed.
    MalformedInput(String),
    /// No route or resource matched the request.
    NotFound,
}

/// The status code that `return_error` renders for each failure kind.
pub open spec fn status_of(e: Error) -> u16 {
    match e {
        Error::HashingFailure => 500,
        Error::WrongCredential => 401,
        Error::CannotDecryptToken => 401,
        Error::Unauthorized => 401,
        Error::ClientError(_) => 500,
        Error::ServerError(_) => 500,
        Error::TransportError => 500,
        Error::MalformedInput(_) => 422,
        Error::NotFound => 404,
    }
}

/// The message that `return_error` renders for each failure kind. Dependency
/// failures collapse to one generic server-side message and every
/// credential-class failure collapses to one generic message, so that a
/// caller cannot tell the causes apart; only malformed input echoes detail.
pub open spec fn message_of(e: Error) -> Seq<char> {
    match e {
        Error::HashingFailure => "Internal Server Error"@,
        Error::WrongCredential => "Invalid credential or no permission"@,
        Error::CannotDecryptToken => "Invalid credential or no permission"@,
        Error::Unauthorized => "Invalid credential or no permission"@,
        Error::ClientError(_) => "Internal Server Error"@,
        Error::ServerError(_) => "Internal Server Error"@,
        Error::TransportError => "Internal Server Error"@,
        Error::MalformedInput(detail) => detail@,
        Error::NotFound => "Route not found"@,
    }
}

/// Renders a failure as the status code and message the caller sees. The
/// match is exhaustive over the closed kind set: no variant falls through.
pub fn return_error(error: &Error) -> (r: (u16, String))
    ensures
        r.0 == status_of(*error),
        r.1@ == message_of(*error),
{
    match error {
        Error::HashingFailure => (500, "Internal Server Error".to_owned()),
        Error::WrongCredential => (401, "Invalid credential or no permission".to_owned()),
        Error::CannotDecryptToken => (401, "Invalid credential or no permission".to_owned()),
        Error::Unauthorized => (401, "Invalid credential or no permission".to_owned()),
        Error::ClientError(_) => (500, "Internal Server Error".to_owned()),
        Error::ServerError(_) => (500, "Internal Server Error".to_owned()),
        Error::TransportError => (500, "Internal Server Error".to_owned()),
        Error::MalformedInput(detail) => (422, detail.clone()),
        Error::NotFound => (404, "Route not found".to_owned()),
    }
}

/// Every credential-class failure — a missing credential, an undecryptable
/// or expired token, a wrong password, and an ownership mismatch — renders
/// with the same status and the same message, so none of the causes can be
/// told apart at the boundary.
pub proof fn lemma_credential_failures_indistinguishable(a: Error, b: Error)
    requires
        a is WrongCredential || a is CannotDecryptToken || a is Unauthorized,
        b is WrongCredential || b is CannotDecryptToken || b is Unauthorized,
    ensures
        status_of(a) == status_of(b),
        message_of(a) == message_of(b),
{
}

} // verus!
