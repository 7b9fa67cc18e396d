//! The boundary's view of a repository error: a status code and a message,
//! and the body shape the boundary serializes.
//!
//! `NotFound` maps to the not-found status with the text "not found",
//! `Conflict` to the conflict status with "conflict", and `Unexpected` to the
//! server-error status carrying the raw diagnostic text.

use crate::ports::{RepoError, RepoErrorView};
use vstd::prelude::*;

verus! {

/// The serialized error payload: one message field.
#[derive(Debug)]
pub struct ErrorBody {
    pub error: String,
}

/// A boundary error: an HTTP status code and the message to serialize.
#[derive(Debug)]
pub struct ApiError {
    pub status: u16,
    pub message: String,
}

/// The status code each repository error maps to.
pub open spec fn status_of(e: RepoErrorView) -> u16 {
    match e {
        RepoErrorView::NotFound => 404,
        RepoErrorView::Conflict => 409,
        RepoErrorView::Unexpected(_) => 500,
    }
}

/// The message each repository error maps to.
pub open spec fn message_of(e: RepoErrorView) -> Seq<char> {
    match e {
        RepoErrorView::NotFound => "not found"@,
        RepoErrorView::Conflict => "conflict"@,
        RepoErrorView::Unexpected(detail) => detail,
    }
}

impl ApiError {
    pub fn new(status: u16, message: String) -> (r: Self)
        ensures
            r.status == status,
            r.message == message,
    {
        ApiError { status, message }
    }

    /// The boundary translation of a repository error.
    pub fn of_repo_error(e: RepoError) -> (r: Self)
        ensures
            r.status == status_of(e@),
            r.message@ == message_of(e@),
    {
        match e {
            RepoError::NotFound => ApiError::new(404, "not found".to_owned()),
            RepoError::Conflict => ApiError::new(409, "conflict".to_owned()),
            RepoError::Unexpected(detail) => ApiError::new(500, detail),
        }
    }

    /// The payload the boundary serializes for this error.
    pub fn body(self) -> (b: ErrorBody)
        ensures
            b.error@ == self.message@,
    {
        ErrorBody { error: self.message }
    }
}

} // verus!
