use vstd::prelude::*;
use crate::errors::{ApiLayerError, Error};

verus! {

/// The structured body the external classification service sends with a
/// non-success response.
#[derive(Debug, Clone)]
pub struct APIResponse {
    pub message: String,
}

/// One flagged word in the service's success body.
#[derive(Debug, Clone)]
pub struct BadWord {
    pub original: String,
    pub word: String,
    pub deviations: i64,
    pub info: i64,
    pub replaced_len: i64,
}

/// The service's success body: the submitted text, the words it flagged,
/// and the censored rendering that sanitization returns.
#[derive(Debug, Clone)]
pub struct BadWordsResponse {
    pub content: String,
    pub bad_words_total: i64,
    pub bad_words_list: Vec<BadWord>,
    pub censored_content: String,
}

/// How many times a transient failure is retried before it is surfaced.
pub const MAX_RETRIES: u8 = 3;

/// The delay before the first retry; each further retry doubles it.
pub const BASE_BACKOFF_MILLIS: u64 = 250;

/// What one attempt against the external service yielded, as plain values:
/// a network-level failure, or a response carrying its status, the message
/// of its structured error body, and its parsed success body when the
/// status was a success and the body parsed as expected.
#[derive(Debug, Clone)]
pub enum AttemptOutcome {
    Transport,
    Http { status: u16, message: String, body: Option<BadWordsResponse> },
}

/// The retry loop's state: how many retries have been made so far.
#[derive(Debug, Clone, Copy, PartialEq, Eq, Structural)]
pub struct RetryState {
    pub retries: u8,
}

/// What the caller must do next: wait the given delay and attempt again, or
/// stop with the operation's result.
#[derive(Debug)]
pub enum RetryDecision {
    Retry { delay_millis: u64 },
    Done(Result<String, Error>),
}

/// Whether an outcome is transient — likely to succeed on retry: a
/// network-level failure or a server-side error status. Client-error
/// statuses are durable and never retried.
pub open spec fn is_transient(outcome: AttemptOutcome) -> bool {
    match outcome {
        AttemptOutcome::Transport => true,
        AttemptOutcome::Http { status, .. } => 500 <= status < 600,
    }
}

/// The backoff before the retry after `retries` earlier ones: exponential,
/// doubling from the base delay.
pub open spec fn backoff_millis(retries: u8) -> u64 {
    BASE_BACKOFF_MILLIS << retries as u64
}

/// The decision the retry machine takes after one attempt, `retries`
/// retries in: a success body's censored text is the result, and a success
/// body that flagged no words returns the submitted text (the body's echo
/// of it) unchanged; a success status whose body did not parse as expected
/// breaks the protocol contract and is a transport-class failure, not a
/// silent pass-through; a client-error status fails immediately; a
/// transient outcome is retried with exponential backoff until the retries
/// are spent, then surfaced as the server-error or transport kind it last
/// showed.
pub open spec fn retry_step_spec(retries: u8, outcome: AttemptOutcome) -> RetryDecision {
    match outcome {
        AttemptOutcome::Transport => if retries < MAX_RETRIES {
            RetryDecision::Retry { delay_millis: backoff_millis(retries) }
        } else {
            RetryDecision::Done(Err(Error::TransportError))
        },
        AttemptOutcome::Http { status, message, body } => if 200 <= status < 300 {
            match body {
                Some(b) => if b.bad_words_total == 0 {
                    RetryDecision::Done(Ok(b.content))
                } else {
                    RetryDecision::Done(Ok(b.censored_content))
                },
                None => RetryDecision::Done(Err(Error::TransportError)),
            }
        } else if 400 <= status < 500 {
            RetryDecision::Done(Err(Error::ClientError(ApiLayerError { status, message })))
        } else if 500 <= status < 600 {
            if retries < MAX_RETRIES {
                RetryDecision::Retry { delay_millis: backoff_millis(retries) }
            } else {
                RetryDecision::Done(Err(Error::ServerError(ApiLayerError { status, message })))
            }
        } else {
            RetryDecision::Done(Err(Error::ServerError(ApiLayerError { status, message })))
        },
    }
}

/// Consumes one attempt's outcome and decides whether to retry. The state
/// advances exactly when a retry is decided, and a retry is decided only
/// while retries remain.
pub fn retry_step(state: &mut RetryState, outcome: AttemptOutcome) -> (r: RetryDecision)
    ensures
        r == retry_step_spec(old(state).retries, outcome),
        r is Retry ==> old(state).retries < MAX_RETRIES && final(state).retries == old(
            state,
        ).retries + 1,
        r is Done ==> *final(state) == *old(state),
{
    match outcome {
        AttemptOutcome::Transport => {
            if state.retries < MAX_RETRIES {
                let delay = BASE_BACKOFF_MILLIS << state.retries;
                state.retries = state.retries + 1;
                RetryDecision::Retry { delay_millis: delay }
            } else {
                RetryDecision::Done(Err(Error::TransportError))
            }
        },
        AttemptOutcome::Http { status, message, body } => {
            if 200 <= status && status < 300 {
                match body {
                    Some(b) => {
                        if b.bad_words_total == 0 {
                            RetryDecision::Done(Ok(b.content))
                        } else {
                            RetryDecision::Done(Ok(b.censored_content))
                        }
                    },
                    None => RetryDecision::Done(Err(Error::TransportError)),
                }
            } else if 400 <= status && status < 500 {
                RetryDecision::Done(Err(Error::ClientError(ApiLayerError { status, message })))
            } else if 500 <= status && status < 600 {
                if state.retries < MAX_RETRIES {
                    let delay = BASE_BACKOFF_MILLIS << state.retries;
                    state.retries = state.retries + 1;
                    RetryDecision::Retry { delay_millis: delay }
                } else {
                    RetryDecision::Done(Err(Error::ServerError(ApiLayerError { status, message })))
                }
            } else {
                RetryDecision::Done(Err(Error::ServerError(ApiLayerError { status, message })))
            }
        },
    }
}

/// A response with a client-error status is never retried: whatever the
/// retry budget, the machine stops at once with the client-error kind
/// carrying that status and message.
pub proof fn lemma_client_error_never_retried(
    retries: u8,
    status: u16,
    message: String,
    body: Option<BadWordsResponse>,
)
    requires
        400 <= status < 500,
    ensures
        retry_step_spec(retries, AttemptOutcome::Http { status, message, body })
            == RetryDecision::Done(Err(Error::ClientError(ApiLayerError { status, message }))),
{
}

/// A retry is only ever decided for a transient outcome, only while fewer
/// than the allowed retries have been made, and with the exponential delay
/// for that retry.
pub proof fn lemma_retry_bounded(retries: u8, outcome: AttemptOutcome)
    ensures
        retry_step_spec(retries, outcome) matches RetryDecision::Retry { delay_millis } ==> {
            &&& is_transient(outcome)
            &&& retries < MAX_RETRIES
            &&& delay_millis == backoff_millis(retries)
        },
{
}

/// Joins the two concurrent sanitize results of one operation: the
/// operation proceeds only when both succeeded, and on any failure the
/// other call's successful result is discarded, never partially applied.
/// The title's failure is the first observed and is the one surfaced.
pub fn combine_sanitized(title: Result<String, Error>, content: Result<String, Error>) -> (r:
    Result<(String, String), Error>)
    ensures
        title matches Ok(t) ==> (content matches Ok(c) ==> r == Ok::<(String, String), Error>(
            (t, c),
        )),
        title matches Err(e) ==> r == Err::<(String, String), Error>(e),
        content matches Err(e) ==> (title is Ok ==> r == Err::<(String, String), Error>(e)),
{
    match title {
        Ok(t) => match content {
            Ok(c) => Ok((t, c)),
            Err(e) => Err(e),
        },
        Err(e) => Err(e),
    }
}

} // verus!
