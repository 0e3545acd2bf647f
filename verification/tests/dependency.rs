use rust_web_dev::errors::{return_error, Error};
use rust_web_dev::profanity::{
    combine_sanitized, retry_step, AttemptOutcome, BadWordsResponse, RetryDecision, RetryState,
};

fn success_body(content: &str, censored: &str) -> AttemptOutcome {
    AttemptOutcome::Http {
        status: 200,
        message: String::new(),
        body: Some(BadWordsResponse {
            content: content.to_string(),
            bad_words_total: 1,
            bad_words_list: Vec::new(),
            censored_content: censored.to_string(),
        }),
    }
}

fn server_error(status: u16) -> AttemptOutcome {
    AttemptOutcome::Http { status, message: "something broke".to_string(), body: None }
}

#[test]
fn transient_failures_are_retried_until_success() {
    let mut state = RetryState { retries: 0 };
    let first = retry_step(&mut state, server_error(500));
    assert!(matches!(first, RetryDecision::Retry { delay_millis: 250 }));
    let second = retry_step(&mut state, server_error(500));
    assert!(matches!(second, RetryDecision::Retry { delay_millis: 500 }));
    let third = retry_step(&mut state, success_body("quite a dick!", "quite a ****!"));
    match third {
        RetryDecision::Done(Ok(text)) => assert_eq!(text, "quite a ****!"),
        other => panic!("expected the censored text, got {:?}", other),
    }
}

#[test]
fn client_errors_are_never_retried() {
    let mut state = RetryState { retries: 0 };
    let outcome = AttemptOutcome::Http {
        status: 404,
        message: "no such endpoint".to_string(),
        body: None,
    };
    let decision = retry_step(&mut state, outcome);
    match decision {
        RetryDecision::Done(Err(Error::ClientError(e))) => {
            assert_eq!(e.status, 404);
            assert_eq!(e.message, "no such endpoint");
        },
        other => panic!("expected an immediate client error, got {:?}", other),
    }
    assert_eq!(state.retries, 0);
}

#[test]
fn retries_are_bounded_and_backoff_doubles() {
    let mut state = RetryState { retries: 0 };
    let mut delays = Vec::new();
    loop {
        match retry_step(&mut state, AttemptOutcome::Transport) {
            RetryDecision::Retry { delay_millis } => delays.push(delay_millis),
            RetryDecision::Done(Err(Error::TransportError)) => break,
            other => panic!("unexpected decision {:?}", other),
        }
    }
    assert_eq!(delays, vec![250, 500, 1000]);
}

#[test]
fn exhausted_server_errors_surface_with_status() {
    let mut state = RetryState { retries: 3 };
    let decision = retry_step(&mut state, server_error(503));
    match decision {
        RetryDecision::Done(Err(Error::ServerError(e))) => assert_eq!(e.status, 503),
        other => panic!("expected a server error, got {:?}", other),
    }
    let (status, message) = return_error(&Error::ServerError(
        rust_web_dev::errors::ApiLayerError { status: 503, message: "x".to_string() },
    ));
    assert_eq!(status, 500);
    assert_eq!(message, "Internal Server Error");
}

#[test]
fn unparsable_success_body_is_a_protocol_failure() {
    let mut state = RetryState { retries: 0 };
    let outcome = AttemptOutcome::Http { status: 200, message: String::new(), body: None };
    let decision = retry_step(&mut state, outcome);
    assert!(matches!(decision, RetryDecision::Done(Err(Error::TransportError))));
}

#[test]
fn combine_requires_both_and_discards_partial_success() {
    let both = combine_sanitized(Ok("quite a ****!".to_string()), Ok("clean text".to_string()));
    assert_eq!(both.unwrap(), ("quite a ****!".to_string(), "clean text".to_string()));

    let second_fails =
        combine_sanitized(Ok("quite a ****!".to_string()), Err(Error::TransportError));
    assert!(matches!(second_fails, Err(Error::TransportError)));

    let first_fails = combine_sanitized(
        Err(Error::ClientError(rust_web_dev::errors::ApiLayerError {
            status: 429,
            message: "slow down".to_string(),
        })),
        Ok("clean text".to_string()),
    );
    match first_fails {
        Err(Error::ClientError(e)) => assert_eq!(e.status, 429),
        other => panic!("expected the first failure, got {:?}", other),
    }
}

#[test]
fn clean_text_passes_through_unchanged() {
    let mut state = RetryState { retries: 0 };
    let outcome = AttemptOutcome::Http {
        status: 200,
        message: String::new(),
        body: Some(BadWordsResponse {
            content: "some sentence".to_string(),
            bad_words_total: 0,
            bad_words_list: Vec::new(),
            censored_content: String::new(),
        }),
    };
    match retry_step(&mut state, outcome) {
        RetryDecision::Done(Ok(text)) => assert_eq!(text, "some sentence"),
        other => panic!("expected the text unchanged, got {:?}", other),
    }
}
