use vstd::prelude::*;

verus! {

/// Why a payload does not have the shape of the type it was read as.
#[derive(Clone, Debug, PartialEq)]
pub enum ShapeError {
    /// A member that the type requires is absent.
    Missing(String),
    /// A member, or the payload itself, holds a value of the wrong kind.
    WrongType(String),
    /// The payload's `object` tag names another kind of resource.
    TagMismatch { expected: String, found: String },
}

/// The structured error body that the service sends with a failing status.
#[derive(Clone, Debug, PartialEq)]
pub struct ApiError {
    pub status: u16,
    pub kind: Option<String>,
    pub code: Option<String>,
    pub message: Option<String>,
}

/// Every failure of an operation on the service.
#[derive(Clone, Debug, PartialEq)]
pub enum Error {
    /// Connection, TLS or timeout failure, as the transport reported it.
    Transport(String),
    /// The service answered with a non-success status.
    Api(ApiError),
    /// The response does not have the expected shape.
    Shape(ShapeError),
}

} // verus!
