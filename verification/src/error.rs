//! Errors as the HTTP API reports them.

use vstd::prelude::*;

use crate::domain::ota::UploadUpdateError;

verus! {

/// Work that failed. `message` is what the failure says, the outermost
/// context as an `anyhow::Error` displays it; `detail` holds that message
/// with its whole chain of causes, for the server's log.
#[derive(Debug, Clone, PartialEq, Eq)]
pub struct Failure {
    pub message: String,
    pub detail: String,
}

pub struct FailureView {
    pub message: Seq<char>,
    pub detail: Seq<char>,
}

impl View for Failure {
    type V = FailureView;

    open spec fn view(&self) -> FailureView {
        FailureView { message: self.message@, detail: self.detail@ }
    }
}

/// A chain of causes written out: `context` in front of `cause`.
pub open spec fn caused(context: Seq<char>, cause: Seq<char>) -> Seq<char> {
    context + ": "@ + cause
}

/// A failure without causes.
pub open spec fn plain_failure(message: Seq<char>) -> FailureView {
    FailureView { message, detail: message }
}

/// `failure` with `context` put around it: the context becomes the message,
/// and the former chain goes under it.
pub open spec fn in_context(context: Seq<char>, failure: FailureView) -> FailureView {
    FailureView { message: context, detail: caused(context, failure.detail) }
}

impl Failure {
    /// A failure that says `message` and has no causes.
    pub fn plain(message: &str) -> (failure: Failure)
        ensures
            failure@ == plain_failure(message@),
    {
        Failure { message: String::from_str(message), detail: String::from_str(message) }
    }

    /// This failure with `context` put around it.
    pub fn context(self, context: &str) -> (failure: Failure)
        ensures
            failure@ == in_context(context@, self@),
    {
        let mut detail = String::from_str(context);
        detail.append(": ");
        detail.append(self.detail.as_str());
        Failure { message: String::from_str(context), detail }
    }
}

/// An error of the HTTP API.
#[derive(Debug)]
pub enum AppError {
    /// The request is malformed; answered with 400 and the message.
    Validation(String),
    /// The request body has the wrong media type; answered with 415 and the message.
    UnsupportedMediaType(String),
    /// Something failed on the server side; answered with 500. The failure
    /// is for the server's log, not for the client.
    Internal(Failure),
}

pub enum AppErrorView {
    Validation(Seq<char>),
    UnsupportedMediaType(Seq<char>),
    Internal(FailureView),
}

impl View for AppError {
    type V = AppErrorView;

    open spec fn view(&self) -> AppErrorView {
        match self {
            AppError::Validation(m) => AppErrorView::Validation(m@),
            AppError::UnsupportedMediaType(m) => AppErrorView::UnsupportedMediaType(m@),
            AppError::Internal(m) => AppErrorView::Internal(m@),
        }
    }
}

/// A reply with a status code and a plain-text body.
#[derive(Debug)]
pub struct TextReply {
    pub status: u16,
    pub body: String,
}

/// The message of an empty upload.
pub open spec fn empty_upload_message() -> Seq<char> {
    "uploaded file is empty"@
}

/// The body of every internal-error reply.
pub open spec fn internal_error_message() -> Seq<char> {
    "an internal error occurred"@
}

/// The API error that an upload error becomes: an empty file is a
/// validation error, anything else an internal one.
pub open spec fn upload_error_as_app_error(e: crate::domain::ota::UploadUpdateErrorView) -> AppErrorView {
    match e {
        crate::domain::ota::UploadUpdateErrorView::EmptyFile => AppErrorView::Validation(empty_upload_message()),
        crate::domain::ota::UploadUpdateErrorView::Unknown(m) => AppErrorView::Internal(m),
    }
}

/// The status code and body with which an API error is answered.
pub open spec fn error_reply(e: AppErrorView) -> (u16, Seq<char>) {
    match e {
        AppErrorView::Validation(m) => (400, m),
        AppErrorView::UnsupportedMediaType(m) => (415, m),
        AppErrorView::Internal(_) => (500, internal_error_message()),
    }
}

impl AppError {
    /// The API error for a failed upload.
    pub fn from_upload_error(err: UploadUpdateError) -> (e: AppError)
        ensures
            e@ == upload_error_as_app_error(err@),
    {
        match err {
            UploadUpdateError::EmptyFile => AppError::Validation(String::from_str("uploaded file is empty")),
            UploadUpdateError::Unknown(message) => AppError::Internal(message),
        }
    }

    /// The reply that answers this error.
    pub fn into_reply(self) -> (reply: TextReply)
        ensures
            (reply.status, reply.body@) == error_reply(self@),
    {
        match self {
            AppError::Validation(message) => TextReply { status: 400, body: message },
            AppError::UnsupportedMediaType(message) => TextReply { status: 415, body: message },
            AppError::Internal(_) => TextReply { status: 500, body: String::from_str("an internal error occurred") },
        }
    }
}

/// The view of a result that is empty or an API error.
pub open spec fn unit_or_error(r: Result<(), AppError>) -> Result<(), AppErrorView> {
    match r {
        Ok(()) => Ok(()),
        Err(e) => Err(e@),
    }
}

} // verus!
