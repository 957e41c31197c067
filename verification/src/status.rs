//! UEFI status codes.
//!
//! A status is a machine word. Success is zero, warnings are small positive
//! codes, and errors have the highest bit of the word set.

use vstd::prelude::*;

verus! {


/// The bit that marks a status code as an error.
pub const ERROR_BIT: usize = usize::MAX - usize::MAX / 2;

/// A UEFI status code.
#[derive(Clone, Copy, Debug, PartialEq, Eq, Structural)]
pub struct Status(pub usize);

/// The code of the error status with the given number.
pub open spec fn error_code(n: int) -> int {
    ERROR_BIT as int + n
}

/// The operation completed successfully.
pub const SUCCESS: usize = 0;
/// The string contained characters that could not be rendered and were skipped.
pub const WARN_UNKNOWN_GLYPH: usize = 1;
/// The handle was closed, but the file was not deleted.
pub const WARN_DELETE_FAILURE: usize = 2;
/// The handle was closed, but the data to the file was not flushed properly.
pub const WARN_WRITE_FAILURE: usize = 3;
/// The resulting buffer was too small, and the data was truncated.
pub const WARN_BUFFER_TOO_SMALL: usize = 4;
/// The data has not been updated within the timeframe set by local policy.
pub const WARN_STALE_DATA: usize = 5;
/// The resulting buffer contains a UEFI-compliant file system.
pub const WARN_FILE_SYSTEM: usize = 6;
/// The operation will be processed across a system reset.
pub const WARN_RESET_REQUIRED: usize = 7;

/// The image failed to load.
pub const LOAD_ERROR: usize = ERROR_BIT + 1;
/// A parameter was incorrect.
pub const INVALID_PARAMETER: usize = ERROR_BIT + 2;
/// The operation is not supported.
pub const UNSUPPORTED: usize = ERROR_BIT + 3;
/// The buffer was not the proper size for the request.
pub const BAD_BUFFER_SIZE: usize = ERROR_BIT + 4;
/// The buffer is not large enough to hold the requested data.
pub const BUFFER_TOO_SMALL: usize = ERROR_BIT + 5;
/// There is no data pending upon return.
pub const NOT_READY: usize = ERROR_BIT + 6;
/// The physical device reported an error while attempting the operation.
pub const DEVICE_ERROR: usize = ERROR_BIT + 7;
/// The device cannot be written to.
pub const WRITE_PROTECTED: usize = ERROR_BIT + 8;
/// A resource has run out.
pub const OUT_OF_RESOURCES: usize = ERROR_BIT + 9;
/// An inconsistency was detected on the file system.
pub const VOLUME_CORRUPTED: usize = ERROR_BIT + 10;
/// There is no more space on the file system.
pub const VOLUME_FULL: usize = ERROR_BIT + 11;
/// The device does not contain any medium to perform the operation.
pub const NO_MEDIA: usize = ERROR_BIT + 12;
/// The medium in the device has changed since the last access.
pub const MEDIA_CHANGED: usize = ERROR_BIT + 13;
/// The item was not found.
pub const NOT_FOUND: usize = ERROR_BIT + 14;
/// Access was denied.
pub const ACCESS_DENIED: usize = ERROR_BIT + 15;
/// The server was not found or did not respond to the request.
pub const NO_RESPONSE: usize = ERROR_BIT + 16;
/// A mapping to a device does not exist.
pub const NO_MAPPING: usize = ERROR_BIT + 17;
/// The timeout time expired.
pub const TIMEOUT: usize = ERROR_BIT + 18;
/// The protocol has not been started.
pub const NOT_STARTED: usize = ERROR_BIT + 19;
/// The protocol has already been started.
pub const ALREADY_STARTED: usize = ERROR_BIT + 20;
/// The operation was aborted.
pub const ABORTED: usize = ERROR_BIT + 21;
/// An ICMP error occurred during the network operation.
pub const ICMP_ERROR: usize = ERROR_BIT + 22;
/// A TFTP error occurred during the network operation.
pub const TFTP_ERROR: usize = ERROR_BIT + 23;
/// A protocol error occurred during the network operation.
pub const PROTOCOL_ERROR: usize = ERROR_BIT + 24;
/// The function encountered an internal version that was incompatible.
pub const INCOMPATIBLE_VERSION: usize = ERROR_BIT + 25;
/// The function was not performed due to a security violation.
pub const SECURITY_VIOLATION: usize = ERROR_BIT + 26;
/// A CRC error was detected.
pub const CRC_ERROR: usize = ERROR_BIT + 27;
/// Beginning or end of media was reached.
pub const END_OF_MEDIA: usize = ERROR_BIT + 28;
/// The end of the file was reached.
pub const END_OF_FILE: usize = ERROR_BIT + 31;
/// The language specified was invalid.
pub const INVALID_LANGUAGE: usize = ERROR_BIT + 32;
/// The security status of the data is unknown or compromised.
pub const COMPROMISED_DATA: usize = ERROR_BIT + 33;
/// There is an address conflict in address allocation.
pub const IP_ADDRESS_CONFLICT: usize = ERROR_BIT + 34;
/// An HTTP error occurred during the network operation.
pub const HTTP_ERROR: usize = ERROR_BIT + 35;

impl Status {
    /// The raw code of this status.
    pub open spec fn code(self) -> usize {
        self.0
    }

    /// True if the status is the success status.
    pub fn is_success(self) -> (r: bool)
        ensures
            r == (self.0 == 0),
    {
        self.0 == 0
    }

    /// True if the status is an error, that is, its error bit is set.
    pub fn is_error(self) -> (r: bool)
        ensures
            r == (self.0 >= ERROR_BIT),
    {
        self.0 >= ERROR_BIT
    }

    /// True if the status is a warning: neither success nor an error.
    pub fn is_warning(self) -> (r: bool)
        ensures
            r == (self.0 != 0 && self.0 < ERROR_BIT),
    {
        self.0 != 0 && self.0 < ERROR_BIT
    }
}


/// Every status is exactly one of success, a warning or an error.
pub proof fn lemma_status_kinds(s: Status)
    ensures
        (s.0 == 0) || (s.0 != 0 && s.0 < ERROR_BIT) || (s.0 >= ERROR_BIT),
        !((s.0 == 0) && (s.0 >= ERROR_BIT)),
        !((s.0 != 0 && s.0 < ERROR_BIT) && (s.0 >= ERROR_BIT)),
{
}

} // verus!
