use vstd::prelude::*;

use crate::onc::ReplyFailure;
use crate::rpc::RpcDeviceErrorCode;

verus! {

/// Failure kinds of the library. Each carries a human-readable description.
#[derive(Debug)]
pub enum Error {
    /// Invariant violation or an operation in the wrong state
    Unspecified(String),
    /// Present API with no behaviour on this transport
    Unimplemented(String),
    /// Wrapped foreign error
    Unhandled(String),
    /// Underlying socket or serial error
    IoError(String),
    /// Device returned a response that we could not properly handle
    BadResponse(String),
    /// Device or driver does not support configuration/functionality
    NotSupported(String),
    /// Timed out during an operation
    Timeout(String),
    /// Malformed URI or out-of-range parameter
    InvalidArgument(String),
    /// A VXI-11 device reported an error code other than success
    DeviceError(RpcDeviceErrorCode),
    /// An RPC reply did not report success; its decoded status
    RpcReply(ReplyFailure),
}

impl Error {
    /// Error for input that could not be decoded.
    pub fn bad_response(msg: &str) -> (e: Error)
        ensures
            e is BadResponse,
    {
        Error::BadResponse(msg.to_owned())
    }

    /// Error for an operation in the wrong state or a violated invariant.
    pub fn unspecified(msg: &str) -> (e: Error)
        ensures
            e is Unspecified,
    {
        Error::Unspecified(msg.to_owned())
    }

    /// Error for an invalid argument.
    pub fn invalid_argument(msg: &str) -> (e: Error)
        ensures
            e is InvalidArgument,
    {
        Error::InvalidArgument(msg.to_owned())
    }

    /// Error for a capability that is not offered.
    pub fn not_supported(msg: &str) -> (e: Error)
        ensures
            e is NotSupported,
    {
        Error::NotSupported(msg.to_owned())
    }

    /// Error for an operation that this transport does not implement.
    pub fn unimplemented(msg: &str) -> (e: Error)
        ensures
            e is Unimplemented,
    {
        Error::Unimplemented(msg.to_owned())
    }

    /// Error for an expired deadline.
    pub fn timeout(msg: &str) -> (e: Error)
        ensures
            e is Timeout,
    {
        Error::Timeout(msg.to_owned())
    }
}

} // verus!
