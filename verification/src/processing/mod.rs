//! The handlers: one per operation. A handler is reached with the decoded
//! request, lets the session guard decide, runs the one operation, and tells
//! the client the outcome in the uniform shape.

pub mod agile;
pub mod laws;
pub mod simple_task;
pub mod todo_list;
pub mod user;

use vstd::prelude::*;
use crate::error_messages::service::{EvelynServiceError, ServiceErrorKind};
use crate::error_messages::storage::EvelynBaseError;
use crate::identifiers::{is_identifier, random_identifier};
use crate::model::{reports, RequestModel, ResponseModel, SessionTokenModel};
use crate::session::{validate, validated, SessionClaims};

verus! {

/// What every handler is handed besides the request: the mark of this
/// server run. It is made once, when the server starts, and only read
/// afterwards.
#[derive(Debug, Clone, PartialEq, Eq)]
pub struct ProcessorData {
    pub server_session_token: String,
}

impl ProcessorData {
    /// The data of a new server run, with a fresh mark. Which mark it
    /// gets is left open; every mark is an identifier.
    pub fn new() -> (data: ProcessorData)
        ensures
            is_identifier(data.server_session_token@),
    {
        ProcessorData { server_session_token: random_identifier() }
    }
}

/// Lets the guard decide on a request's session. A session that the guard
/// turns away is reported to the client as foreign.
pub fn validate_session(processor_data: &ProcessorData, claims: Option<SessionClaims>) -> (session:
    Result<SessionTokenModel, EvelynServiceError>)
    ensures
        match validated(claims, processor_data.server_session_token@) {
            Ok(model) => session == Ok::<SessionTokenModel, EvelynServiceError>(model),
            Err(_) => session == Err::<SessionTokenModel, EvelynServiceError>(
                EvelynServiceError::ForeignSessionToken(EvelynBaseError::NothingElse),
            ),
        },
{
    match validate(claims, &processor_data.server_session_token) {
        Ok(model) => Ok(model),
        Err(_) => Err(EvelynServiceError::ForeignSessionToken(EvelynBaseError::NothingElse)),
    }
}

/// Whether a request goes on to its operation, and if not, why not.
pub open spec fn accepted<Req>(
    decoded: Result<Req, serde_json::Error>,
    claims: Option<SessionClaims>,
    processor_data: ProcessorData,
) -> Result<(Req, SessionTokenModel), EvelynServiceError> {
    match decoded {
        Err(e) => Err(EvelynServiceError::CouldNotDecodeTheRequestPayload(e)),
        Ok(model) => match validated(claims, processor_data.server_session_token@) {
            Ok(session) => Ok((model, session)),
            Err(_) => Err(EvelynServiceError::ForeignSessionToken(EvelynBaseError::NothingElse)),
        },
    }
}

/// The first two steps of every handler that needs to know who is asking:
/// a body that could not be decoded is refused as such, without a look at
/// the session; a decoded request goes to the guard.
pub fn accept<Req>(
    decoded: Result<Req, serde_json::Error>,
    claims: Option<SessionClaims>,
    processor_data: &ProcessorData,
) -> (acceptance: Result<(Req, SessionTokenModel), EvelynServiceError>)
    ensures
        acceptance == accepted(decoded, claims, *processor_data),
{
    match decoded {
        Err(e) => Err(EvelynServiceError::CouldNotDecodeTheRequestPayload(e)),
        Ok(model) => match validate_session(processor_data, claims) {
            Ok(session) => Ok((model, session)),
            Err(refusal) => Err(refusal),
        },
    }
}

/// What holds of the answer of a handler that needs to know who is asking,
/// whatever its collaborators gave back: a body that did not decode is
/// answered from that alone; a decoded request has its token looked up, and
/// is answered either from the guard's refusal or from what the operation
/// gave for exactly this request and this session.
pub open spec fn handled<Req: RequestModel, Out, Resp, Find, Op, Reply>(
    decoded: Result<Req, serde_json::Error>,
    processor_data: ProcessorData,
    find_session: Find,
    op: Op,
    reply: Reply,
    response: Resp,
) -> bool where
    Find: FnOnce(&String) -> Option<SessionClaims>,
    Op: FnOnce(Req, SessionTokenModel) -> Out,
    Reply: FnOnce(Result<Out, EvelynServiceError>) -> Resp,
{
    match decoded {
        Err(e) => call_ensures(
            reply,
            (Err(EvelynServiceError::CouldNotDecodeTheRequestPayload(e)),),
            response,
        ),
        Ok(model) => exists|token: &String, claims: Option<SessionClaims>|
            token@ == model.session_token() && #[trigger] call_ensures(
                find_session,
                (token,),
                claims,
            ) && match validated(claims, processor_data.server_session_token@) {
                Err(_) => call_ensures(
                    reply,
                    (Err(EvelynServiceError::ForeignSessionToken(EvelynBaseError::NothingElse)),),
                    response,
                ),
                Ok(session) => exists|outcome: Out| #[trigger]
                    call_ensures(op, (model, session), outcome) && call_ensures(
                        reply,
                        (Ok(outcome),),
                        response,
                    ),
            },
    }
}

/// The handler of an operation that needs to know who is asking, whole:
/// given the decoded body, it has the request's token looked up, lets the
/// guard decide, runs the operation only for a request that was let
/// through, and has the outcome told in the shape of the operation's
/// answer.
pub fn run_processor<Req: RequestModel, Out, Resp, Find, Op, Reply>(
    decoded: Result<Req, serde_json::Error>,
    processor_data: &ProcessorData,
    find_session: Find,
    op: Op,
    reply: Reply,
) -> (response: Resp) where
    Find: FnOnce(&String) -> Option<SessionClaims>,
    Op: FnOnce(Req, SessionTokenModel) -> Out,
    Reply: FnOnce(Result<Out, EvelynServiceError>) -> Resp,

    requires
        forall|token: &String| call_requires(find_session, (token,)),
        forall|model: Req, session: SessionTokenModel| call_requires(op, (model, session)),
        forall|outcome: Result<Out, EvelynServiceError>| call_requires(reply, (outcome,)),
    ensures
        handled(decoded, *processor_data, find_session, op, reply, response),
{
    let claims: Option<SessionClaims> = match &decoded {
        Ok(model) => find_session(model.token()),
        Err(_) => None,
    };
    match accept(decoded, claims, processor_data) {
        Ok((model, session)) => {
            let outcome: Out = op(model, session);
            reply(Ok(outcome))
        },
        Err(refusal) => reply(Err(refusal)),
    }
}

/// What holds of the answer of a handler that anyone may reach, whatever
/// its operation gave back.
pub open spec fn handled_openly<Req, Out, Resp, Op, Reply>(
    decoded: Result<Req, serde_json::Error>,
    op: Op,
    reply: Reply,
    response: Resp,
) -> bool where Op: FnOnce(Req) -> Out, Reply: FnOnce(Result<Out, EvelynServiceError>) -> Resp {
    match decoded {
        Err(e) => call_ensures(
            reply,
            (Err(EvelynServiceError::CouldNotDecodeTheRequestPayload(e)),),
            response,
        ),
        Ok(model) => exists|outcome: Out| #[trigger]
            call_ensures(op, (model,), outcome) && call_ensures(reply, (Ok(outcome),), response),
    }
}

/// The handler of an operation that anyone may reach, whole: given the
/// decoded body, it runs the operation for a request that decoded, and has
/// the outcome told in the shape of the operation's answer.
pub fn run_open_processor<Req, Out, Resp, Op, Reply>(
    decoded: Result<Req, serde_json::Error>,
    op: Op,
    reply: Reply,
) -> (response: Resp) where
    Op: FnOnce(Req) -> Out,
    Reply: FnOnce(Result<Out, EvelynServiceError>) -> Resp,

    requires
        forall|model: Req| call_requires(op, (model,)),
        forall|outcome: Result<Out, EvelynServiceError>| call_requires(reply, (outcome,)),
    ensures
        handled_openly(decoded, op, reply, response),
{
    match decoded {
        Err(e) => reply(Err(EvelynServiceError::CouldNotDecodeTheRequestPayload(e))),
        Ok(model) => {
            let outcome: Out = op(model);
            reply(Ok(outcome))
        },
    }
}

/// Whether `reply` tells every refusal as the failure that it is: with the
/// registry row of the refusal's kind and without data.
pub open spec fn tells_refusals<Out, Resp: ResponseModel, Reply>(reply: Reply) -> bool where
    Reply: FnOnce(Result<Out, EvelynServiceError>) -> Resp,
{
    forall|refusal: EvelynServiceError, response: Resp| #[trigger]
        call_ensures(reply, (Err(refusal),), response) ==> reports(response, refusal.kind_of())
}

/// A body that does not decode is answered with that failure, whatever the
/// operation is: the client is told that the payload could not be decoded,
/// and is given no data.
pub proof fn lemma_undecoded_body_is_refused<Req: RequestModel, Out, Resp: ResponseModel, Find, Op, Reply>(
    decoded: Result<Req, serde_json::Error>,
    processor_data: ProcessorData,
    find_session: Find,
    op: Op,
    reply: Reply,
    response: Resp,
) where
    Find: FnOnce(&String) -> Option<SessionClaims>,
    Op: FnOnce(Req, SessionTokenModel) -> Out,
    Reply: FnOnce(Result<Out, EvelynServiceError>) -> Resp,

    requires
        decoded is Err,
        tells_refusals(reply),
        handled(decoded, processor_data, find_session, op, reply, response),
    ensures
        reports(response, ServiceErrorKind::CouldNotDecodeTheRequestPayload),
{
}

/// The same of a handler that anyone may reach.
pub proof fn lemma_undecoded_body_is_refused_openly<Req, Out, Resp: ResponseModel, Op, Reply>(
    decoded: Result<Req, serde_json::Error>,
    op: Op,
    reply: Reply,
    response: Resp,
) where Op: FnOnce(Req) -> Out, Reply: FnOnce(Result<Out, EvelynServiceError>) -> Resp
    requires
        decoded is Err,
        tells_refusals(reply),
        handled_openly(decoded, op, reply, response),
    ensures
        reports(response, ServiceErrorKind::CouldNotDecodeTheRequestPayload),
{
}

/// A request whose session the guard turns away is answered with that
/// failure, whatever the operation is: the client is told that the session
/// is foreign, and is given no data.
pub proof fn lemma_foreign_session_is_refused<Req: RequestModel, Out, Resp: ResponseModel, Find, Op, Reply>(
    decoded: Result<Req, serde_json::Error>,
    processor_data: ProcessorData,
    find_session: Find,
    op: Op,
    reply: Reply,
    response: Resp,
) where
    Find: FnOnce(&String) -> Option<SessionClaims>,
    Op: FnOnce(Req, SessionTokenModel) -> Out,
    Reply: FnOnce(Result<Out, EvelynServiceError>) -> Resp,

    requires
        decoded is Ok,
        forall|token: &String, claims: Option<SessionClaims>| #[trigger]
            call_ensures(find_session, (token,), claims) ==> validated(
                claims,
                processor_data.server_session_token@,
            ) is Err,
        tells_refusals(reply),
        handled(decoded, processor_data, find_session, op, reply, response),
    ensures
        reports(response, ServiceErrorKind::ForeignSessionToken),
{
}

} // verus!
