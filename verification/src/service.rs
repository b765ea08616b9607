//! The clip service: what callers ask, what is done, and how it fails.

use crate::domain::clip::{prefixed, ClipErrorView};
use crate::data::{DataError, DatabaseFault, DatabaseFaultView};
use crate::ClipError;
use vstd::prelude::*;
use vstd::std_specs::convert::FromSpecImpl;

pub mod action;
pub mod ask;

verus! {

/// Why the service did not do what it was asked.
#[derive(Debug)]
pub enum ServiceError {
    /// The storage gateway failed.
    Data(DataError),
    /// A value is not fit for a clip.
    Clip(ClipError),
    /// Nothing is stored under the code.
    NotFound,
    /// The clip is there, but the caller may not have it; the text says why.
    PermissionError(String),
}

/// [`ServiceError`] as contracts speak of it.
pub enum ServiceErrorView {
    Data(DatabaseFaultView),
    Clip(ClipErrorView),
    NotFound,
    PermissionError(Seq<char>),
}

impl View for ServiceError {
    type V = ServiceErrorView;

    open spec fn view(&self) -> ServiceErrorView {
        match self {
            ServiceError::Data(e) => ServiceErrorView::Data(e@),
            ServiceError::Clip(e) => ServiceErrorView::Clip(e@),
            ServiceError::NotFound => ServiceErrorView::NotFound,
            ServiceError::PermissionError(text) => ServiceErrorView::PermissionError(text@),
        }
    }
}

/// The service's error for a failure of the gateway: a missing row is
/// "not found", every other failure is passed on.
pub open spec fn data_failure(fault: DatabaseFaultView) -> ServiceErrorView {
    match fault {
        DatabaseFaultView::RowNotFound => ServiceErrorView::NotFound,
        _ => ServiceErrorView::Data(fault),
    }
}

impl From<DataError> for ServiceError {
    /// A missing row is "not found"; every other failure is passed on.
    fn from(err: DataError) -> (r: Self)
        ensures
            r@ == data_failure(err@),
    {
        match err {
            DataError::DatabaseError(e) => match e {
                DatabaseFault::RowNotFound => ServiceError::NotFound,
                _ => ServiceError::Data(DataError::DatabaseError(e)),
            },
        }
    }
}

impl FromSpecImpl<DataError> for ServiceError {
    open spec fn obeys_from_spec() -> bool {
        true
    }

    open spec fn from_spec(err: DataError) -> Self {
        match err {
            DataError::DatabaseError(e) => match e {
                DatabaseFault::RowNotFound => ServiceError::NotFound,
                _ => ServiceError::Data(DataError::DatabaseError(e)),
            },
        }
    }
}

impl From<ClipError> for ServiceError {
    /// The error of a value that is not fit for a clip.
    fn from(err: ClipError) -> (r: Self)
        ensures
            r@ == ServiceErrorView::Clip(err@),
    {
        ServiceError::Clip(err)
    }
}

impl FromSpecImpl<ClipError> for ServiceError {
    open spec fn obeys_from_spec() -> bool {
        true
    }

    open spec fn from_spec(err: ClipError) -> Self {
        ServiceError::Clip(err)
    }
}

impl ServiceError {
    /// The error in words.
    pub fn message(&self) -> (r: String)
        ensures
            match self@ {
                ServiceErrorView::Data(fault) => r@ == "database error: "@ + ("database error: "@
                    + fault.message()),
                ServiceErrorView::Clip(_) => "service error: "@.is_prefix_of(r@),
                ServiceErrorView::NotFound => r@ == "not found"@,
                ServiceErrorView::PermissionError(text) => r@ == "permission error: "@ + text,
            },
    {
        match self {
            ServiceError::Data(e) => prefixed("database error: ", e.message().as_str()),
            ServiceError::Clip(e) => prefixed("service error: ", e.message().as_str()),
            ServiceError::NotFound => "not found".to_owned(),
            ServiceError::PermissionError(text) => prefixed("permission error: ", text.as_str()),
        }
    }
}

} // verus!
