//! gRPC status values returned by the CSI services, as plain data.

use vstd::prelude::*;

verus! {

/// The gRPC status codes that the CSI services of this plugin return.
#[derive(Debug, Clone, Copy, PartialEq, Eq, Structural)]
pub enum StatusCode {
    InvalidArgument,
    NotFound,
    AlreadyExists,
    FailedPrecondition,
    Internal,
}

/// Mathematical model of a [`CsiStatus`].
pub struct StatusView {
    pub code: StatusCode,
    pub message: Seq<char>,
}

/// An error status answered to a CSI request: a code and a message.
#[derive(Debug)]
pub struct CsiStatus {
    pub code: StatusCode,
    pub message: String,
}

impl View for CsiStatus {
    type V = StatusView;

    open spec fn view(&self) -> StatusView {
        StatusView { code: self.code, message: self.message@ }
    }
}

impl CsiStatus {
    /// A status with the given code and message.
    pub fn new(code: StatusCode, message: String) -> (s: CsiStatus)
        ensures
            s.code == code,
            s.message@ == message@,
    {
        CsiStatus { code, message }
    }

    /// The status code.
    pub fn code(&self) -> (c: StatusCode)
        ensures
            c == self.code,
    {
        self.code
    }

    /// The status message.
    pub fn message(&self) -> (m: &str)
        ensures
            m@ == self.message@,
    {
        self.message.as_str()
    }

    /// An `InvalidArgument` status.
    pub fn invalid_argument(message: String) -> (s: CsiStatus)
        ensures
            s@ == (StatusView { code: StatusCode::InvalidArgument, message: message@ }),
    {
        CsiStatus { code: StatusCode::InvalidArgument, message }
    }

    /// A `NotFound` status.
    pub fn not_found(message: String) -> (s: CsiStatus)
        ensures
            s@ == (StatusView { code: StatusCode::NotFound, message: message@ }),
    {
        CsiStatus { code: StatusCode::NotFound, message }
    }

    /// An `AlreadyExists` status.
    pub fn already_exists(message: String) -> (s: CsiStatus)
        ensures
            s@ == (StatusView { code: StatusCode::AlreadyExists, message: message@ }),
    {
        CsiStatus { code: StatusCode::AlreadyExists, message }
    }

    /// A `FailedPrecondition` status.
    pub fn failed_precondition(message: String) -> (s: CsiStatus)
        ensures
            s@ == (StatusView { code: StatusCode::FailedPrecondition, message: message@ }),
    {
        CsiStatus { code: StatusCode::FailedPrecondition, message }
    }

    /// An `Internal` status.
    pub fn internal(message: String) -> (s: CsiStatus)
        ensures
            s@ == (StatusView { code: StatusCode::Internal, message: message@ }),
    {
        CsiStatus { code: StatusCode::Internal, message }
    }
}

} // verus!
