//! The session guard. A session lives as long as the server run that issued
//! it: a token carries the mark of that run, and is turned away by any other.

use vstd::prelude::*;
use crate::error_messages::domain::EvelynCoreError;
use crate::error_messages::storage::EvelynBaseError;
use crate::model::user::UserModel;
use crate::model::SessionTokenModel;

verus! {

/// What a session token carries once its signature has been read: who it
/// was issued to, when, and by which server run.
#[derive(Debug, Clone, PartialEq, Eq)]
pub struct SessionClaims {
    pub user_id: String,
    pub server_session_token: String,
    pub issued_at: i64,
}

/// The claims of a token issued to `user` at `issued_at` by the server run
/// marked `server_session_token`.
pub open spec fn issued(server_session_token: String, user: UserModel, issued_at: i64)
    -> SessionClaims {
    SessionClaims { user_id: user.user_id, server_session_token, issued_at }
}

/// What the guard answers to a token with the given claims (`None`: the token
/// could not be read) when the running server is marked `expected`.
pub open spec fn validated(claims: Option<SessionClaims>, expected: Seq<char>) -> Result<
    SessionTokenModel,
    EvelynCoreError,
> {
    match claims {
        Some(c) => if c.server_session_token@ == expected {
            Ok(SessionTokenModel { user_id: c.user_id, issued_at: c.issued_at })
        } else {
            Err(EvelynCoreError::ForeignSession(EvelynBaseError::NothingElse))
        },
        None => Err(EvelynCoreError::ForeignSession(EvelynBaseError::NothingElse)),
    }
}

/// Makes the claims of a new session for `user`; signing them is left to
/// the caller.
pub fn create_session_token(server_session_token: &String, user: &UserModel, issued_at: i64) -> (claims:
    SessionClaims)
    ensures
        claims == issued(*server_session_token, *user, issued_at),
{
    SessionClaims {
        user_id: user.user_id.clone(),
        server_session_token: server_session_token.clone(),
        issued_at,
    }
}

/// The guard: accepts the claims of a token that this server run issued and
/// says who is asking; turns away every other token as foreign.
pub fn validate(claims: Option<SessionClaims>, expected_server_session_token: &String) -> (session:
    Result<SessionTokenModel, EvelynCoreError>)
    ensures
        session == validated(claims, expected_server_session_token@),
{
    match claims {
        Some(c) => {
            if c.server_session_token == *expected_server_session_token {
                Ok(SessionTokenModel { user_id: c.user_id, issued_at: c.issued_at })
            } else {
                Err(EvelynCoreError::ForeignSession(EvelynBaseError::NothingElse))
            }
        },
        None => Err(EvelynCoreError::ForeignSession(EvelynBaseError::NothingElse)),
    }
}

/// A token issued by one server run is accepted by that run and by no other:
/// against the mark it was issued with the guard says who is asking, and
/// against any other mark it answers that the session is foreign.
pub proof fn lemma_session_is_bound_to_its_server(
    server_session_token: String,
    user: UserModel,
    issued_at: i64,
    expected: Seq<char>,
)
    ensures
        expected == server_session_token@ ==> validated(
            Some(issued(server_session_token, user, issued_at)),
            expected,
        ) == Ok::<SessionTokenModel, EvelynCoreError>(
            SessionTokenModel { user_id: user.user_id, issued_at },
        ),
        expected != server_session_token@ ==> validated(
            Some(issued(server_session_token, user, issued_at)),
            expected,
        ) == Err::<SessionTokenModel, EvelynCoreError>(
            EvelynCoreError::ForeignSession(EvelynBaseError::NothingElse),
        ),
{
}

} // verus!
