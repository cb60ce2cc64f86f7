//! Errors of the binder client.
use vstd::prelude::*;

verus! {

/// Every failure the library reports.
#[derive(Debug, Clone, Copy, PartialEq, Eq, Structural)]
pub enum Error {
    /// The binder device could not be opened.
    DeviceOpenFailed,
    /// The driver speaks another protocol version.
    VersionMismatch,
    /// The receive region could not be mapped.
    MmapFailed,
    /// An ioctl failed; carries its request number.
    IoctlFailed(u32),
    /// The driver returned fewer bytes than a return code needs.
    ShortRead,
    /// A return code was not followed by its whole payload, or its payload
    /// lies outside the receive region.
    TruncatedPayload,
    /// The driver returned a code this client does not handle.
    UnexpectedReturn(u32),
    /// The driver reported an error.
    DriverError,
    /// The remote side failed the transaction.
    TransactionFailed,
    /// The ioctl was interrupted by a signal.
    Interrupted,
    /// A parcel did not hold what was read from it.
    DecodeError,
    /// A parcel held a flat object of a type this client does not handle.
    UnsupportedObject,
    /// A reply had another shape than the request calls for.
    InvalidReply,
    /// The servicemanager did not answer the ping.
    ServiceManagerUnreachable,
    /// The servicemanager refused to register a service; carries its status.
    AddServiceFailed(u32),
}

} // verus!
