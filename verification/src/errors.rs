use vstd::prelude::*;

verus! {

/// Why a domain operation was refused.
#[derive(Clone, Copy, PartialEq, Eq, Structural, Debug)]
pub enum EngineError {
    /// Malformed locator or empty name: a client bug, not retryable as-is.
    InvalidName,
    /// A locator or resource did not resolve.
    NotFound,
    /// A name is already in use among active resources.
    Conflict,
    /// The target resource is exclusively held by another writer.
    Locked,
    /// A second acquisition of a lock that is already held.
    AlreadyLocked,
    /// A release attempted by an identity that does not hold the lock.
    NotHolder,
    /// A release of a resource that is not locked.
    NotLocked,
    /// A call name with no registered handler.
    UnknownAction,
    /// A request body that does not parse against the action's schema.
    MalformedBody,
    /// A storage or accounting failure.
    Internal,
}

/// The transport-level status class an engine error maps to, so clients can
/// branch on retryability.
#[derive(Clone, Copy, PartialEq, Eq, Structural, Debug)]
pub enum StatusClass {
    /// Malformed input: fix the request before retrying.
    InvalidArgument,
    /// Valid input naming an unknown resource.
    NotFound,
    /// Valid input, domain conflict with existing state.
    AlreadyExists,
    /// Contention: the client may retry with backoff.
    FailedPrecondition,
    /// The feature is not available: never retry.
    Unimplemented,
    /// Server-side failure: retryable at the caller's discretion.
    Internal,
}

/// Maps every engine error to its transport status class: the malformed-input
/// class is kept distinct from the domain-conflict and contention classes.
pub fn status_class(e: &EngineError) -> (r: StatusClass)
    ensures
        r == status_class_of(*e),
{
    match e {
        EngineError::InvalidName => StatusClass::InvalidArgument,
        EngineError::MalformedBody => StatusClass::InvalidArgument,
        EngineError::NotFound => StatusClass::NotFound,
        EngineError::Conflict => StatusClass::AlreadyExists,
        EngineError::Locked => StatusClass::FailedPrecondition,
        EngineError::AlreadyLocked => StatusClass::FailedPrecondition,
        EngineError::NotHolder => StatusClass::FailedPrecondition,
        EngineError::NotLocked => StatusClass::FailedPrecondition,
        EngineError::UnknownAction => StatusClass::Unimplemented,
        EngineError::Internal => StatusClass::Internal,
    }
}

/// The status class of each engine error.
pub open spec fn status_class_of(e: EngineError) -> StatusClass {
    match e {
        EngineError::InvalidName => StatusClass::InvalidArgument,
        EngineError::MalformedBody => StatusClass::InvalidArgument,
        EngineError::NotFound => StatusClass::NotFound,
        EngineError::Conflict => StatusClass::AlreadyExists,
        EngineError::Locked => StatusClass::FailedPrecondition,
        EngineError::AlreadyLocked => StatusClass::FailedPrecondition,
        EngineError::NotHolder => StatusClass::FailedPrecondition,
        EngineError::NotLocked => StatusClass::FailedPrecondition,
        EngineError::UnknownAction => StatusClass::Unimplemented,
        EngineError::Internal => StatusClass::Internal,
    }
}

/// The human-readable message of each engine error.
pub open spec fn engine_error_text(e: EngineError) -> Seq<char> {
    match e {
        EngineError::InvalidName => "invalid resource name"@,
        EngineError::NotFound => "resource not found"@,
        EngineError::Conflict => "resource name already in use"@,
        EngineError::Locked => "resource is locked"@,
        EngineError::AlreadyLocked => "lock is already held"@,
        EngineError::NotHolder => "lock is held by another holder"@,
        EngineError::NotLocked => "resource is not locked"@,
        EngineError::UnknownAction => "unknown action"@,
        EngineError::MalformedBody => "malformed request body"@,
        EngineError::Internal => "internal error"@,
    }
}

/// Renders the human-readable message of an engine error.
pub fn engine_error_message(e: &EngineError) -> (r: String)
    ensures
        r@ == engine_error_text(*e),
{
    match e {
        EngineError::InvalidName => String::from_str("invalid resource name"),
        EngineError::NotFound => String::from_str("resource not found"),
        EngineError::Conflict => String::from_str("resource name already in use"),
        EngineError::Locked => String::from_str("resource is locked"),
        EngineError::AlreadyLocked => String::from_str("lock is already held"),
        EngineError::NotHolder => String::from_str("lock is held by another holder"),
        EngineError::NotLocked => String::from_str("resource is not locked"),
        EngineError::UnknownAction => String::from_str("unknown action"),
        EngineError::MalformedBody => String::from_str("malformed request body"),
        EngineError::Internal => String::from_str("internal error"),
    }
}

/// A failure surfaced at the server boundary.
pub enum ServerError {
    /// The opaque bulk-read ticket did not parse; carries the parse detail.
    BadTicket(String),
    /// The endpoint is not available on this deployment.
    Unimplemented,
    /// A domain operation failed.
    Engine(EngineError),
}

/// The log line produced for each server error: the bad-ticket case appends
/// the inner detail after a separator.
pub open spec fn server_error_text(e: ServerError) -> Seq<char> {
    match e {
        ServerError::BadTicket(inner) => "bad ticket - "@ + inner@,
        ServerError::Unimplemented => "unimplemented"@,
        ServerError::Engine(inner) => "engine error: "@ + engine_error_text(inner),
    }
}

/// Renders the log line of a `ServerError`.
///
/// Use this function with `.inspect_err`.
pub fn log_server_error(e: &ServerError) -> (r: String)
    ensures
        r@ == server_error_text(*e),
{
    match e {
        ServerError::BadTicket(inner) => {
            let mut s = String::from_str("bad ticket - ");
            s.append(inner.as_str());
            s
        },
        ServerError::Unimplemented => String::from_str("unimplemented"),
        ServerError::Engine(inner) => {
            let mut s = String::from_str("engine error: ");
            let msg = engine_error_message(inner);
            s.append(msg.as_str());
            s
        },
    }
}

} // verus!
