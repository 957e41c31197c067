//! The errors that UEFI operations report.

use crate::status::{
    ABORTED, ACCESS_DENIED, ALREADY_STARTED, BAD_BUFFER_SIZE, BUFFER_TOO_SMALL, COMPROMISED_DATA, CRC_ERROR, DEVICE_ERROR, END_OF_FILE, END_OF_MEDIA, ERROR_BIT, HTTP_ERROR, ICMP_ERROR, INCOMPATIBLE_VERSION, INVALID_LANGUAGE, INVALID_PARAMETER, IP_ADDRESS_CONFLICT, LOAD_ERROR, MEDIA_CHANGED, NOT_FOUND, NOT_READY, NOT_STARTED, NO_MAPPING, NO_MEDIA, NO_RESPONSE, OUT_OF_RESOURCES, PROTOCOL_ERROR, SECURITY_VIOLATION, SUCCESS, TFTP_ERROR, TIMEOUT, UNSUPPORTED, VOLUME_CORRUPTED, VOLUME_FULL, WARN_BUFFER_TOO_SMALL, WARN_DELETE_FAILURE, WARN_FILE_SYSTEM, WARN_RESET_REQUIRED, WARN_STALE_DATA, WARN_UNKNOWN_GLYPH, WARN_WRITE_FAILURE, WRITE_PROTECTED, Status,
};
use vstd::prelude::*;

verus! {

/// An error or warning that a UEFI operation reports.
#[derive(Clone, Copy, Debug, PartialEq, Eq, Structural)]
pub enum Error {
    /// The string contained characters that could not be rendered and were skipped.
    WarnUnknownGlyph,
    /// The handle was closed, but the file was not deleted.
    WarnDeleteFailure,
    /// The handle was closed, but the data to the file was not flushed properly.
    WarnWriteFailure,
    /// The resulting buffer was too small, and the data was truncated.
    WarnBufferTooSmall,
    /// The data has not been updated within the timeframe set by local policy.
    WarnStaleData,
    /// The resulting buffer contains UEFI-compliant file system.
    WarnFileSystem,
    /// The operation will be processed across a system reset.
    WarnResetRequired,
    /// The image failed to load.
    LoadError,
    /// A parameter was incorrect.
    InvalidParameter,
    /// The operation is not supported.
    Unsupported,
    /// The buffer was not the proper size for the request.
    BadBufferSize,
    /// The buffer is not large enough to hold the requested data.
    /// The required buffer size is returned in the appropriate parameter.
    BufferTooSmall(usize),
    /// There is no data pending upon return.
    NotReady,
    /// The physical device reported an error while attempting the operation.
    DeviceError,
    /// The device cannot be written to.
    WriteProtected,
    /// A resource has run out.
    OutOfResources,
    /// An inconsistency was detected on the file system.
    VolumeCorrupted,
    /// There is no more space on the file system.
    VolumeFull,
    /// The device does not contain any medium to perform the operation.
    NoMedia,
    /// The medium in the device has changed since the last access.
    MediaChanged,
    /// The item was not found.
    NotFound,
    /// Access was denied.
    AccessDenied,
    /// The server was not found or did not respond to the request.
    NoResponse,
    /// A mapping to a device does not exist.
    NoMapping,
    /// The timeout time expired.
    Timeout,
    /// The protocol has not been started.
    NotStarted,
    /// The protocol has already been started.
    AlreadyStarted,
    /// The operation was aborted.
    Aborted,
    /// An ICMP error occurred during the network operation.
    IcmpError,
    /// A TFTP error occurred during the network operation.
    TftpError,
    /// A protocol error occurred during the network operation.
    ProtocolError,
    /// The function encountered an internal version that was
    /// incompatible with a version requested by the caller.
    IncompatibleVersion,
    /// The function was not performed due to a security violation.
    SecurityViolation,
    /// A CRC error was detected.
    CrcError,
    /// Beginning or end of media was reached
    EndOfMedia,
    /// The end of the file was reached.
    EndOfFile,
    /// The language specified was invalid.
    InvalidLanguage,
    /// The security status of the data is unknown or compromised and
    /// the data must be updated or replaced to restore a valid security status.
    CompromisedData,
    /// There is an address conflict address allocation
    IpAddressConflict,
    /// A HTTP error occurred during the network operation.
    HttpError,
}

/// The status code that stands for each error.
pub open spec fn error_code_of(e: Error) -> usize {
    match e {
        Error::WarnUnknownGlyph => WARN_UNKNOWN_GLYPH,
        Error::WarnDeleteFailure => WARN_DELETE_FAILURE,
        Error::WarnWriteFailure => WARN_WRITE_FAILURE,
        Error::WarnBufferTooSmall => WARN_BUFFER_TOO_SMALL,
        Error::WarnStaleData => WARN_STALE_DATA,
        Error::WarnFileSystem => WARN_FILE_SYSTEM,
        Error::WarnResetRequired => WARN_RESET_REQUIRED,
        Error::LoadError => LOAD_ERROR,
        Error::InvalidParameter => INVALID_PARAMETER,
        Error::Unsupported => UNSUPPORTED,
        Error::BadBufferSize => BAD_BUFFER_SIZE,
        Error::BufferTooSmall(_) => BUFFER_TOO_SMALL,
        Error::NotReady => NOT_READY,
        Error::DeviceError => DEVICE_ERROR,
        Error::WriteProtected => WRITE_PROTECTED,
        Error::OutOfResources => OUT_OF_RESOURCES,
        Error::VolumeCorrupted => VOLUME_CORRUPTED,
        Error::VolumeFull => VOLUME_FULL,
        Error::NoMedia => NO_MEDIA,
        Error::MediaChanged => MEDIA_CHANGED,
        Error::NotFound => NOT_FOUND,
        Error::AccessDenied => ACCESS_DENIED,
        Error::NoResponse => NO_RESPONSE,
        Error::NoMapping => NO_MAPPING,
        Error::Timeout => TIMEOUT,
        Error::NotStarted => NOT_STARTED,
        Error::AlreadyStarted => ALREADY_STARTED,
        Error::Aborted => ABORTED,
        Error::IcmpError => ICMP_ERROR,
        Error::TftpError => TFTP_ERROR,
        Error::ProtocolError => PROTOCOL_ERROR,
        Error::IncompatibleVersion => INCOMPATIBLE_VERSION,
        Error::SecurityViolation => SECURITY_VIOLATION,
        Error::CrcError => CRC_ERROR,
        Error::EndOfMedia => END_OF_MEDIA,
        Error::EndOfFile => END_OF_FILE,
        Error::InvalidLanguage => INVALID_LANGUAGE,
        Error::CompromisedData => COMPROMISED_DATA,
        Error::IpAddressConflict => IP_ADDRESS_CONFLICT,
        Error::HttpError => HTTP_ERROR,
    }
}

impl Error {
    /// Get error `Status`.
    pub fn status(&self) -> (s: Status)
        ensures
            s.0 == error_code_of(*self),
    {
        match self {
            Error::WarnUnknownGlyph => Status(WARN_UNKNOWN_GLYPH),
            Error::WarnDeleteFailure => Status(WARN_DELETE_FAILURE),
            Error::WarnWriteFailure => Status(WARN_WRITE_FAILURE),
            Error::WarnBufferTooSmall => Status(WARN_BUFFER_TOO_SMALL),
            Error::WarnStaleData => Status(WARN_STALE_DATA),
            Error::WarnFileSystem => Status(WARN_FILE_SYSTEM),
            Error::WarnResetRequired => Status(WARN_RESET_REQUIRED),
            Error::LoadError => Status(LOAD_ERROR),
            Error::InvalidParameter => Status(INVALID_PARAMETER),
            Error::Unsupported => Status(UNSUPPORTED),
            Error::BadBufferSize => Status(BAD_BUFFER_SIZE),
            Error::BufferTooSmall(_) => Status(BUFFER_TOO_SMALL),
            Error::NotReady => Status(NOT_READY),
            Error::DeviceError => Status(DEVICE_ERROR),
            Error::WriteProtected => Status(WRITE_PROTECTED),
            Error::OutOfResources => Status(OUT_OF_RESOURCES),
            Error::VolumeCorrupted => Status(VOLUME_CORRUPTED),
            Error::VolumeFull => Status(VOLUME_FULL),
            Error::NoMedia => Status(NO_MEDIA),
            Error::MediaChanged => Status(MEDIA_CHANGED),
            Error::NotFound => Status(NOT_FOUND),
            Error::AccessDenied => Status(ACCESS_DENIED),
            Error::NoResponse => Status(NO_RESPONSE),
            Error::NoMapping => Status(NO_MAPPING),
            Error::Timeout => Status(TIMEOUT),
            Error::NotStarted => Status(NOT_STARTED),
            Error::AlreadyStarted => Status(ALREADY_STARTED),
            Error::Aborted => Status(ABORTED),
            Error::IcmpError => Status(ICMP_ERROR),
            Error::TftpError => Status(TFTP_ERROR),
            Error::ProtocolError => Status(PROTOCOL_ERROR),
            Error::IncompatibleVersion => Status(INCOMPATIBLE_VERSION),
            Error::SecurityViolation => Status(SECURITY_VIOLATION),
            Error::CrcError => Status(CRC_ERROR),
            Error::EndOfMedia => Status(END_OF_MEDIA),
            Error::EndOfFile => Status(END_OF_FILE),
            Error::InvalidLanguage => Status(INVALID_LANGUAGE),
            Error::CompromisedData => Status(COMPROMISED_DATA),
            Error::IpAddressConflict => Status(IP_ADDRESS_CONFLICT),
            Error::HttpError => Status(HTTP_ERROR),
        }
    }
}

/// Every error stands for a status other than success: the warnings for
/// warning codes and the rest for error codes.
pub proof fn lemma_error_status_not_success(e: Error)
    ensures
        error_code_of(e) != SUCCESS,
        error_code_of(e) < ERROR_BIT <==> (e is WarnUnknownGlyph || e is WarnDeleteFailure
            || e is WarnWriteFailure || e is WarnBufferTooSmall || e is WarnStaleData
            || e is WarnFileSystem || e is WarnResetRequired),
{
}

/// Two errors stand for the same status only if they are the same kind of
/// error (the size that `BufferTooSmall` carries is not part of the status).
pub proof fn lemma_error_status_injective(a: Error, b: Error)
    requires
        error_code_of(a) == error_code_of(b),
    ensures
        a == b || (a is BufferTooSmall && b is BufferTooSmall),
{
}

} // verus!
