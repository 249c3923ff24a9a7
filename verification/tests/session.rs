use evelyn::error_messages::{EvelynBaseError, EvelynCoreError};
use evelyn::model::user::UserModel;
use evelyn::model::SessionTokenModel;
use evelyn::processing::{validate_session, ProcessorData};
use evelyn::error_messages::EvelynServiceError;
use evelyn::session::{create_session_token, validate, SessionClaims};

fn amy() -> UserModel {
    UserModel {
        user_id: "7d1f".to_string(),
        user_name: "amy".to_string(),
        email_address: "amy@example.org".to_string(),
        password: "hunter2".to_string(),
    }
}

#[test]
fn claims_name_the_user_the_server_run_and_the_time() {
    let claims = create_session_token(&"run-1".to_string(), &amy(), 1_500_000_000);
    assert_eq!(
        claims,
        SessionClaims {
            user_id: "7d1f".to_string(),
            server_session_token: "run-1".to_string(),
            issued_at: 1_500_000_000,
        }
    );
}

#[test]
fn a_session_is_accepted_by_the_server_run_that_issued_it() {
    let claims = create_session_token(&"run-1".to_string(), &amy(), 42);
    assert_eq!(
        validate(Some(claims), &"run-1".to_string()),
        Ok(SessionTokenModel { user_id: "7d1f".to_string(), issued_at: 42 })
    );
}

#[test]
fn a_session_is_foreign_to_every_other_server_run() {
    for other in ["run-2", "", "run-", "run-11", "RUN-1"] {
        let claims = create_session_token(&"run-1".to_string(), &amy(), 42);
        assert_eq!(
            validate(Some(claims), &other.to_string()),
            Err(EvelynCoreError::ForeignSession(EvelynBaseError::NothingElse))
        );
    }
}

#[test]
fn a_token_that_could_not_be_read_is_foreign() {
    assert_eq!(
        validate(None, &"run-1".to_string()),
        Err(EvelynCoreError::ForeignSession(EvelynBaseError::NothingElse))
    );
}

#[test]
fn a_restart_ends_every_session() {
    let before = ProcessorData::new();
    let after = ProcessorData::new();
    assert_ne!(before.server_session_token, after.server_session_token);
    let claims = create_session_token(&before.server_session_token, &amy(), 42);
    assert!(validate(Some(claims.clone()), &before.server_session_token).is_ok());
    assert!(validate(Some(claims), &after.server_session_token).is_err());
}

#[test]
fn the_mark_of_a_server_run_is_a_hyphenated_identifier() {
    let data = ProcessorData::new();
    let mark = data.server_session_token;
    assert_eq!(mark.len(), 36);
    for (i, c) in mark.chars().enumerate() {
        if i == 8 || i == 13 || i == 18 || i == 23 {
            assert_eq!(c, '-');
        } else {
            assert!(c.is_ascii_digit() || ('a'..='f').contains(&c));
        }
    }
}

#[test]
fn a_foreign_session_is_told_as_such_to_the_client() {
    let data = ProcessorData { server_session_token: "run-2".to_string() };
    let claims = create_session_token(&"run-1".to_string(), &amy(), 42);
    match validate_session(&data, Some(claims)) {
        Err(EvelynServiceError::ForeignSessionToken(EvelynBaseError::NothingElse)) => {}
        other => panic!("{:?}", other),
    }
    match validate_session(&data, None) {
        Err(EvelynServiceError::ForeignSessionToken(EvelynBaseError::NothingElse)) => {}
        other => panic!("{:?}", other),
    }
}

#[test]
fn an_accepted_session_says_who_is_asking() {
    let data = ProcessorData { server_session_token: "run-1".to_string() };
    let claims = create_session_token(&"run-1".to_string(), &amy(), 42);
    match validate_session(&data, Some(claims)) {
        Ok(session) => assert_eq!(session, SessionTokenModel { user_id: "7d1f".to_string(), issued_at: 42 }),
        Err(e) => panic!("{:?}", e),
    }
}
