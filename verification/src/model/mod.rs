//! The models that cross the wire and the records that are stored.

pub mod agile;
pub mod calendar;
pub mod simple_task;
pub mod todo_list;
pub mod user;

use vstd::prelude::*;
use crate::error_messages::service::{code_and_message, ErrorEntry, EvelynServiceError, ServiceErrorKind};

verus! {

/// The one shape in which a failure is told to a client.
#[derive(Debug, Clone, PartialEq, Eq)]
pub struct ErrorModel {
    pub code: String,
    pub message: String,
}

impl View for ErrorModel {
    type V = ErrorEntry;

    open spec fn view(&self) -> ErrorEntry {
        ErrorEntry { code: self.code@, message: self.message@ }
    }
}

/// Who is asking: what a request is handed once its session token has been
/// accepted.
#[derive(Debug, Clone, PartialEq, Eq)]
pub struct SessionTokenModel {
    pub user_id: String,
    pub issued_at: i64,
}

/// The registry row that an optional failure stands for.
pub open spec fn reported_by(error: Option<ErrorModel>) -> Option<ErrorEntry> {
    match error {
        Some(model) => Some(model@),
        None => None,
    }
}

/// A request that carries a session token.
pub trait RequestModel: Sized {
    /// The text of the token.
    spec fn session_token(&self) -> Seq<char>;

    fn token(&self) -> (token: &String)
        ensures
            token@ == self.session_token(),
    ;
}

/// An answer to a request. Every answer has the same two parts: the data,
/// and the failure; a failure is told without data.
pub trait ResponseModel: Sized {
    /// The failure that this answer reports, if it reports one.
    spec fn reported(&self) -> Option<ErrorEntry>;

    /// Whether this answer carries no data.
    spec fn is_blank(&self) -> bool;

    /// The answer that reports `error` and carries no data.
    fn failure(error: ErrorModel) -> (response: Self)
        ensures
            response.reported() == Some(error@),
            response.is_blank(),
    ;
}

/// Whether `response` tells a failure of the given kind: it carries the
/// registry row of that kind and no data.
pub open spec fn reports<R: ResponseModel>(response: R, kind: ServiceErrorKind) -> bool {
    response.is_blank() && response.reported() == Some(kind.entry())
}

/// What a client is told of a failure: the registry row of its kind, and
/// nothing of what lay beneath it.
pub fn service_error_to_model(error: EvelynServiceError) -> (model: ErrorModel)
    ensures
        model@ == error.kind_of().entry(),
{
    code_and_message(error.kind())
}

/// The answer that tells the failure `error`.
pub fn rejection<R: ResponseModel>(error: EvelynServiceError) -> (response: R)
    ensures
        reports(response, error.kind_of()),
{
    R::failure(service_error_to_model(error))
}

} // verus!
