//! The failures of the store as the gateway tells them apart, the errors
//! that reach a client, and the counter that each error is counted under.

use vstd::prelude::*;

verus! {

/// Why a store operation gave no result.
#[derive(Clone, Copy, Debug, PartialEq, Eq, Structural)]
pub enum StoreFailure {
    /// The deadline passed before the store answered. Never read as "absent".
    Timeout,
    /// The store answered that no row matches.
    NotFound,
    /// A uniqueness constraint was violated.
    Conflict,
    /// Any other fault that the store reported.
    StoreError,
}

/// What a caller is told when a call fails.
#[derive(Clone, Copy, Debug, PartialEq, Eq, Structural)]
pub enum ServiceError {
    /// The URL that the client sent does not parse as an absolute URL.
    MalformedInput,
    /// No link has the identifier that was asked for.
    NotFoundClient,
    /// The API key is missing or wrong.
    Unauthenticated,
    /// Every identifier that was drawn for a new link was taken.
    ExhaustedIdSpace,
    /// The store timed out or reported a fault.
    InfrastructureFailure { cause: StoreFailure },
}

/// The counter that a failed call is counted under.
#[derive(Clone, Copy, Debug, PartialEq, Eq, Structural)]
pub enum FailureCounter {
    UnauthorizedCalls,
    RequestError,
    IdSpaceExhausted,
}

pub const STATUS_OK: u16 = 200;

pub const STATUS_TEMPORARY_REDIRECT: u16 = 307;

pub const STATUS_UNAUTHORIZED: u16 = 401;

pub const STATUS_NOT_FOUND: u16 = 404;

pub const STATUS_CONFLICT: u16 = 409;

pub const STATUS_INTERNAL_SERVER_ERROR: u16 = 500;

/// The HTTP status that goes with an error.
pub open spec fn status_of(error: ServiceError) -> u16 {
    match error {
        ServiceError::MalformedInput => STATUS_CONFLICT,
        ServiceError::NotFoundClient => STATUS_NOT_FOUND,
        ServiceError::Unauthenticated => STATUS_UNAUTHORIZED,
        ServiceError::ExhaustedIdSpace => STATUS_INTERNAL_SERVER_ERROR,
        ServiceError::InfrastructureFailure { .. } => STATUS_INTERNAL_SERVER_ERROR,
    }
}

/// The text that a client gets with an error; a creation has words of
/// its own for a URL that does not parse. A store fault shows as the same
/// words as an exhausted identifier space: its cause stays inside.
pub open spec fn message_of(error: ServiceError) -> Seq<char> {
    match error {
        ServiceError::MalformedInput => "malformed url"@,
        ServiceError::NotFoundClient => "not found"@,
        ServiceError::Unauthenticated => "unauthorized"@,
        ServiceError::ExhaustedIdSpace => "internal server error"@,
        ServiceError::InfrastructureFailure { .. } => "internal server error"@,
    }
}

/// The counter for an error: rejected keys and exhausted identifiers each
/// have their own, everything else is a request error.
pub open spec fn counter_of(error: ServiceError) -> FailureCounter {
    match error {
        ServiceError::Unauthenticated => FailureCounter::UnauthorizedCalls,
        ServiceError::ExhaustedIdSpace => FailureCounter::IdSpaceExhausted,
        _ => FailureCounter::RequestError,
    }
}

/// The words that name a store failure in a counter's tag.
pub open spec fn cause_of(failure: StoreFailure) -> Seq<char> {
    match failure {
        StoreFailure::Timeout => "deadline has elapsed"@,
        StoreFailure::NotFound => "no row found"@,
        StoreFailure::Conflict => "unique violation"@,
        StoreFailure::StoreError => "store error"@,
    }
}

/// The words that name an error in a counter's tag: for a store fault
/// its cause, else the client's message.
pub open spec fn tag_of(error: ServiceError) -> Seq<char> {
    match error {
        ServiceError::InfrastructureFailure { cause } => cause_of(cause),
        _ => message_of(error),
    }
}

impl StoreFailure {
    /// The words that name this failure in a counter's tag.
    pub fn cause(&self) -> (text: &'static str)
        ensures
            text@ == cause_of(*self),
    {
        match self {
            StoreFailure::Timeout => "deadline has elapsed",
            StoreFailure::NotFound => "no row found",
            StoreFailure::Conflict => "unique violation",
            StoreFailure::StoreError => "store error",
        }
    }
}

impl ServiceError {
    /// The HTTP status that goes with this error.
    pub fn status(&self) -> (code: u16)
        ensures
            code == status_of(*self),
            400 <= code < 600,
    {
        match self {
            ServiceError::MalformedInput => STATUS_CONFLICT,
            ServiceError::NotFoundClient => STATUS_NOT_FOUND,
            ServiceError::Unauthenticated => STATUS_UNAUTHORIZED,
            ServiceError::ExhaustedIdSpace => STATUS_INTERNAL_SERVER_ERROR,
            ServiceError::InfrastructureFailure { .. } => STATUS_INTERNAL_SERVER_ERROR,
        }
    }

    /// The text that a client gets with this error.
    pub fn message(&self) -> (text: &'static str)
        ensures
            text@ == message_of(*self),
    {
        match self {
            ServiceError::MalformedInput => "malformed url",
            ServiceError::NotFoundClient => "not found",
            ServiceError::Unauthenticated => "unauthorized",
            ServiceError::ExhaustedIdSpace => "internal server error",
            ServiceError::InfrastructureFailure { .. } => "internal server error",
        }
    }

    /// The counter that this error is counted under.
    pub fn counter(&self) -> (counter: FailureCounter)
        ensures
            counter == counter_of(*self),
    {
        match self {
            ServiceError::Unauthenticated => FailureCounter::UnauthorizedCalls,
            ServiceError::ExhaustedIdSpace => FailureCounter::IdSpaceExhausted,
            _ => FailureCounter::RequestError,
        }
    }

    /// The words that name this error in its counter's tag.
    pub fn tag(&self) -> (text: &'static str)
        ensures
            text@ == tag_of(*self),
    {
        match self {
            ServiceError::InfrastructureFailure { cause } => cause.cause(),
            _ => self.message(),
        }
    }
}

impl FailureCounter {
    /// The name under which the counter is kept.
    pub fn name(&self) -> (text: &'static str)
        ensures
            text@ == match *self {
                FailureCounter::UnauthorizedCalls => "unauthorized_calls_count"@,
                FailureCounter::RequestError => "request_error"@,
                FailureCounter::IdSpaceExhausted => "saving_link_impossible_no_unique_id"@,
            },
    {
        match self {
            FailureCounter::UnauthorizedCalls => "unauthorized_calls_count",
            FailureCounter::RequestError => "request_error",
            FailureCounter::IdSpaceExhausted => "saving_link_impossible_no_unique_id",
        }
    }
}

/// What is counted for a call that failed: under which counter, and the
/// two tags, the cause and the target of the request.
#[derive(Clone, Debug, PartialEq, Eq)]
pub struct FailureSignal {
    pub counter: FailureCounter,
    pub cause: String,
    pub target: String,
}

/// The view of a [`FailureSignal`].
pub struct SignalView {
    pub counter: FailureCounter,
    pub cause: Seq<char>,
    pub target: Seq<char>,
}

impl View for FailureSignal {
    type V = SignalView;

    open spec fn view(&self) -> SignalView {
        SignalView { counter: self.counter, cause: self.cause@, target: self.target@ }
    }
}

/// The mark that ends every tag.
pub const TAG_END: &'static str = "!";

/// The signal for an error of a request to `target`.
pub open spec fn signal_of(error: ServiceError, target: Seq<char>) -> SignalView {
    SignalView {
        counter: counter_of(error),
        cause: tag_of(error) + TAG_END@,
        target: target + TAG_END@,
    }
}

/// A tag's value: the text, closed by the end mark.
pub fn tag_value(text: &str) -> (tag: String)
    ensures
        tag@ == text@ + TAG_END@,
{
    let mut tag = text.to_owned();
    tag.append(TAG_END);
    tag
}

/// The signal that goes out for a failed call: every error has one, and
/// it says which request was turned away and why.
pub fn failure_signal(error: ServiceError, target: &str) -> (signal: FailureSignal)
    ensures
        signal@ == signal_of(error, target@),
{
    FailureSignal {
        counter: error.counter(),
        cause: tag_value(error.tag()),
        target: tag_value(target),
    }
}

/// The answer to a health check: the status, and the text of the body.
pub fn health() -> (answer: (u16, &'static str))
    ensures
        answer.0 == STATUS_OK,
        answer.1@ == "Service is healthy"@,
{
    (STATUS_OK, "Service is healthy")
}

/// Turns a failure of the store into the error that the caller gets.
pub fn internal_error(cause: StoreFailure) -> (error: ServiceError)
    ensures
        error == (ServiceError::InfrastructureFailure { cause }),
        status_of(error) == STATUS_INTERNAL_SERVER_ERROR,
{
    ServiceError::InfrastructureFailure { cause }
}

} // verus!
