//! Errors that the HTTP handlers answer with.
use vstd::prelude::*;

verus! {

/// A refused request: the resource does not exist, or the request is malformed.
#[derive(Debug, PartialEq, Eq)]
pub enum AppError {
    NotFound(String),
    BadRequest(String),
}

} // verus!
