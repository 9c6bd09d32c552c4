//! How remote operations and local checks fail.

use vstd::prelude::*;

verus! {

/// How a remote operation failed.
#[derive(Clone, Debug, PartialEq, Eq)]
pub enum ApiError {
    /// The service answered with a status outside 2xx, and this body.
    Http { status: u16, message: String },
    /// No answer was obtained: connection or encoding failure.
    Transport(String),
    /// A 2xx answer whose body does not have the expected shape.
    Unexpected,
}

/// What is wrong with the values of a submitted form.
#[derive(Clone, Copy, Debug, PartialEq, Eq, Structural)]
pub enum FormError {
    ProjectNameOrGitUrl,
    ProtocolName,
    ProtocolNameOrWorkspacePath,
    /// A number field holds text that is not an integer.
    UnreadableNumber,
}

/// The last failure that the session recorded.
#[derive(Clone, Debug, PartialEq, Eq)]
pub enum Failure {
    /// A remote operation failed.
    Api(ApiError),
    /// A form was submitted with a required field blank or a number field
    /// unreadable; nothing was sent.
    Validation(FormError),
    /// An action needs a selected project and none is selected.
    NoProjectSelected,
}

} // verus!
