//! Errors of the mount and unmount commands.

use vstd::prelude::*;

verus! {

/// An error met while mounting or unmounting a volume. The I/O and transport
/// variants hold the text of the underlying error.
#[derive(Debug, Clone)]
pub enum K8sCSIXetFSError {
    GenericError(String),
    IOError(String),
    TonicTransportError(String),
}

/// The text that describes an error.
pub open spec fn error_message(e: K8sCSIXetFSError) -> Seq<char> {
    match e {
        K8sCSIXetFSError::GenericError(s) => s@,
        K8sCSIXetFSError::IOError(s) => "IOError "@ + s@,
        K8sCSIXetFSError::TonicTransportError(s) => "TransportError "@ + s@,
    }
}

/// `prefix` followed by `text`.
pub fn concat_str(prefix: &str, text: &str) -> (s: String)
    ensures
        s@ == prefix@ + text@,
{
    let mut s = prefix.to_owned();
    s.append(text);
    s
}

impl K8sCSIXetFSError {
    /// The text that describes the error.
    pub fn message(&self) -> (s: String)
        ensures
            s@ == error_message(*self),
    {
        match self {
            K8sCSIXetFSError::GenericError(m) => m.clone(),
            K8sCSIXetFSError::IOError(m) => concat_str("IOError ", m.as_str()),
            K8sCSIXetFSError::TonicTransportError(m) => concat_str("TransportError ", m.as_str()),
        }
    }
}

} // verus!
