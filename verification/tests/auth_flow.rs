use rust_web_dev::authentication::{auth, login, register};
use rust_web_dev::errors::{return_error, Error};
use rust_web_dev::ownership::{check_ownership, ensure_owner};
use rust_web_dev::password::{hash_password, verify_password};
use rust_web_dev::profanity::{
    combine_sanitized, retry_step, AttemptOutcome, BadWordsResponse, RetryDecision, RetryState,
};
use rust_web_dev::token::{issue_token, issue_token_at, verify_token, verify_token_at};
use rust_web_dev::types::account::{Account, AccountId, Session};

const KEY: &[u8] = b"RANDOM WORDS WINTER MACINTOSH PC";
const NOW: i64 = 1_700_000_000;

#[test]
fn password_round_trip() {
    let hash = hash_password(b"correct horse battery staple");
    assert_ne!(hash.as_bytes(), b"correct horse battery staple");
    assert_eq!(
        verify_password(hash.as_str(), b"correct horse battery staple").unwrap(),
        true
    );
    assert_eq!(verify_password(hash.as_str(), b"wrong guess").unwrap(), false);
}

#[test]
fn password_salts_are_fresh() {
    let h1 = hash_password(b"same plaintext");
    let h2 = hash_password(b"same plaintext");
    assert_ne!(h1, h2);
    assert!(verify_password(h1.as_str(), b"same plaintext").unwrap());
    assert!(verify_password(h2.as_str(), b"same plaintext").unwrap());
}

#[test]
fn malformed_hash_is_an_error_not_a_mismatch() {
    let r = verify_password("not an encoded hash", b"anything");
    assert!(matches!(r, Err(Error::HashingFailure)));
}

#[test]
fn token_issue_then_verify() {
    let token = issue_token_at(AccountId(7), KEY, NOW).unwrap();
    let session = verify_token_at(token.as_str(), KEY, NOW).unwrap();
    assert_eq!(session.account_id, AccountId(7));
    assert_eq!(session.nbf, NOW);
    assert_eq!(session.exp, NOW + 86400);
    assert!(session.nbf <= NOW && NOW <= session.exp);
}

#[test]
fn token_issue_then_verify_with_clock() {
    let token = issue_token(AccountId(11), KEY).unwrap();
    let session = verify_token(token.as_str(), KEY).unwrap();
    assert_eq!(session.account_id, AccountId(11));
}

#[test]
fn expired_and_tampered_tokens_fail_alike() {
    let token = issue_token_at(AccountId(7), KEY, NOW).unwrap();
    let expired = verify_token_at(token.as_str(), KEY, NOW + 86401).unwrap_err();
    assert!(matches!(expired, Error::CannotDecryptToken));
    let premature = verify_token_at(token.as_str(), KEY, NOW - 1).unwrap_err();
    assert!(matches!(premature, Error::CannotDecryptToken));

    let mut bytes = token.into_bytes();
    let last = bytes.len() - 1;
    bytes[last] = if bytes[last] == b'A' { b'B' } else { b'A' };
    let tampered = String::from_utf8(bytes).unwrap();
    let forged = verify_token_at(tampered.as_str(), KEY, NOW).unwrap_err();
    assert!(matches!(forged, Error::CannotDecryptToken));

    let garbage = verify_token_at("v2.local.not-a-token", KEY, NOW).unwrap_err();
    assert!(matches!(garbage, Error::CannotDecryptToken));

    let (s1, m1) = return_error(&expired);
    let (s2, m2) = return_error(&forged);
    assert_eq!((s1, m1), (s2, m2));
}

#[test]
fn auth_gate_admits_and_rejects() {
    let token = issue_token_at(AccountId(3), KEY, NOW).unwrap();
    let session = auth(Some(token.as_str()), KEY, NOW + 5).unwrap();
    assert_eq!(session.account_id, AccountId(3));

    let missing = auth(None, KEY, NOW).unwrap_err();
    assert!(matches!(missing, Error::Unauthorized));
    let invalid = auth(Some("nonsense"), KEY, NOW).unwrap_err();
    assert!(matches!(invalid, Error::Unauthorized));
    assert_eq!(return_error(&missing), return_error(&invalid));
}

#[test]
fn ownership_guard_decides_by_account() {
    let session = Session { exp: NOW + 86400, account_id: AccountId(5), nbf: NOW };
    assert!(check_ownership(AccountId(5), &session));
    assert!(!check_ownership(AccountId(6), &session));
    assert!(matches!(ensure_owner(AccountId(5), &session), Ok(())));
    let denied = ensure_owner(AccountId(6), &session).unwrap_err();
    assert!(matches!(denied, Error::Unauthorized));

    let no_credential = auth(None, KEY, NOW).unwrap_err();
    assert_eq!(return_error(&denied), return_error(&no_credential));
}

#[test]
fn login_issues_token_for_the_account() {
    let submitted = Account {
        id: Some(AccountId(42)),
        email: "someone@example.com".to_string(),
        password: "open sesame".to_string(),
    };
    let stored = register(submitted);
    assert_eq!(stored.id, Some(AccountId(42)));
    assert_eq!(stored.email, "someone@example.com");
    assert_ne!(stored.password, "open sesame");

    let token = login(&stored, b"open sesame", KEY, NOW).unwrap();
    let session = verify_token_at(token.as_str(), KEY, NOW).unwrap();
    assert_eq!(session.account_id, AccountId(42));

    let wrong = login(&stored, b"open says me", KEY, NOW).unwrap_err();
    assert!(matches!(wrong, Error::WrongCredential));
    let (status, _) = return_error(&wrong);
    assert_eq!(status, 401);
}

#[test]
fn end_to_end_register_login_update() {
    let submitted = Account {
        id: Some(AccountId(1)),
        email: "owner@example.com".to_string(),
        password: "hunter2hunter2".to_string(),
    };
    let stored = register(submitted);
    let token = login(&stored, b"hunter2hunter2", KEY, NOW).unwrap();
    let session = auth(Some(token.as_str()), KEY, NOW + 1).unwrap();

    let foreign_resource_owner = AccountId(2);
    let denied = ensure_owner(foreign_resource_owner, &session).unwrap_err();
    let (status, _) = return_error(&denied);
    assert_eq!(status, 401);

    let owned_resource_owner = AccountId(1);
    assert!(matches!(ensure_owner(owned_resource_owner, &session), Ok(())));

    let mut state = RetryState { retries: 0 };
    let title_decision = retry_step(
        &mut state,
        AttemptOutcome::Http {
            status: 200,
            message: String::new(),
            body: Some(BadWordsResponse {
                content: "quite a dick!".to_string(),
                bad_words_total: 1,
                bad_words_list: Vec::new(),
                censored_content: "quite a ****!".to_string(),
            }),
        },
    );
    let title = match title_decision {
        RetryDecision::Done(r) => r,
        other => panic!("expected a final decision, got {:?}", other),
    };
    let content = Ok("clean text".to_string());
    let (stored_title, stored_content) = combine_sanitized(title, content).unwrap();
    assert_eq!(stored_title, "quite a ****!");
    assert_eq!(stored_content, "clean text");
}

#[test]
fn short_or_footered_tokens_are_rejected_not_decrypted() {
    let short = verify_token_at("v2.local.AAAA", KEY, NOW).unwrap_err();
    assert!(matches!(short, Error::CannotDecryptToken));

    let empty_body = verify_token_at("v2.local.", KEY, NOW).unwrap_err();
    assert!(matches!(empty_body, Error::CannotDecryptToken));

    let min_length = verify_token_at(
        "v2.local.AAAAAAAAAAAAAAAAAAAAAAAAAAAAAAAA",
        KEY,
        NOW,
    )
    .unwrap_err();
    assert!(matches!(min_length, Error::CannotDecryptToken));

    let token = issue_token_at(AccountId(9), KEY, NOW).unwrap();
    let footered = format!("{}.Zm9vdGVy", token);
    let with_footer = verify_token_at(footered.as_str(), KEY, NOW).unwrap_err();
    assert!(matches!(with_footer, Error::CannotDecryptToken));
}

#[test]
fn padded_or_foreign_alphabet_bodies_are_rejected_not_decrypted() {
    let padded = format!("v2.local.{}==", "A".repeat(30));
    let r = verify_token_at(padded.as_str(), KEY, NOW).unwrap_err();
    assert!(matches!(r, Error::CannotDecryptToken));

    let longer_padded = format!("v2.local.{}=", "A".repeat(39));
    let r = verify_token_at(longer_padded.as_str(), KEY, NOW).unwrap_err();
    assert!(matches!(r, Error::CannotDecryptToken));

    let with_space = format!("v2.local.{} A", "A".repeat(30));
    let r = verify_token_at(with_space.as_str(), KEY, NOW).unwrap_err();
    assert!(matches!(r, Error::CannotDecryptToken));

    let with_plus = format!("v2.local.{}+A", "A".repeat(30));
    let r = verify_token_at(with_plus.as_str(), KEY, NOW).unwrap_err();
    assert!(matches!(r, Error::CannotDecryptToken));
}
