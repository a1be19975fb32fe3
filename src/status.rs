use vstd::prelude::*;

verus! {

/// Status codes shared with the host's asynchronous file-system vocabulary.
/// The integer value of each variant is given by `code` and is part of the host
/// contract.
#[allow(non_camel_case_types)]
#[derive(Debug, Clone, Copy, PartialEq, Eq, Structural)]
pub enum FSASYNC {
    /// The name is not part of this file system.
    FSASYNC_ERR_NOT_MINE,
    /// A failure that might be temporary.
    FSASYNC_ERR_RETRY_LATER,
    /// Parameters invalid for unbuffered I/O.
    FSASYNC_ERR_ALIGNMENT,
    /// Hard subsystem failure.
    FSASYNC_ERR_FAILURE,
    /// Read error on the file.
    FSASYNC_ERR_READING,
    /// Out of memory.
    FSASYNC_ERR_NOMEMORY,
    /// The caller's id is not recognized.
    FSASYNC_ERR_UNKNOWNID,
    /// The file could not be opened (bad path, missing, and so on).
    FSASYNC_ERR_FILEOPEN,
    /// The operation succeeded.
    FSASYNC_OK,
    /// Queued, waiting for service.
    FSASYNC_STATUS_PENDING,
    /// Being accessed.
    FSASYNC_STATUS_INPROGRESS,
    /// Aborted by the caller.
    FSASYNC_STATUS_ABORTED,
    /// Not yet queued.
    FSASYNC_STATUS_UNSERVICED,
}

/// The integer the host sees for each status.
pub open spec fn code_of(s: FSASYNC) -> int {
    match s {
        FSASYNC::FSASYNC_ERR_NOT_MINE => -8,
        FSASYNC::FSASYNC_ERR_RETRY_LATER => -7,
        FSASYNC::FSASYNC_ERR_ALIGNMENT => -6,
        FSASYNC::FSASYNC_ERR_FAILURE => -5,
        FSASYNC::FSASYNC_ERR_READING => -4,
        FSASYNC::FSASYNC_ERR_NOMEMORY => -3,
        FSASYNC::FSASYNC_ERR_UNKNOWNID => -2,
        FSASYNC::FSASYNC_ERR_FILEOPEN => -1,
        FSASYNC::FSASYNC_OK => 0,
        FSASYNC::FSASYNC_STATUS_PENDING => 1,
        FSASYNC::FSASYNC_STATUS_INPROGRESS => 2,
        FSASYNC::FSASYNC_STATUS_ABORTED => 3,
        FSASYNC::FSASYNC_STATUS_UNSERVICED => 4,
    }
}

/// How an I/O failure is classified before it becomes a status.
#[derive(Debug, Clone, Copy, PartialEq, Eq, Structural)]
pub enum IoErrorKind {
    /// The platform reported that memory ran out.
    OutOfMemory,
    /// Any other failure.
    Other,
}

impl FSASYNC {
    /// The integer value handed to the host.
    pub fn code(self) -> (r: i32)
        ensures
            r == code_of(self),
    {
        match self {
            FSASYNC::FSASYNC_ERR_NOT_MINE => -8,
            FSASYNC::FSASYNC_ERR_RETRY_LATER => -7,
            FSASYNC::FSASYNC_ERR_ALIGNMENT => -6,
            FSASYNC::FSASYNC_ERR_FAILURE => -5,
            FSASYNC::FSASYNC_ERR_READING => -4,
            FSASYNC::FSASYNC_ERR_NOMEMORY => -3,
            FSASYNC::FSASYNC_ERR_UNKNOWNID => -2,
            FSASYNC::FSASYNC_ERR_FILEOPEN => -1,
            FSASYNC::FSASYNC_OK => 0,
            FSASYNC::FSASYNC_STATUS_PENDING => 1,
            FSASYNC::FSASYNC_STATUS_INPROGRESS => 2,
            FSASYNC::FSASYNC_STATUS_ABORTED => 3,
            FSASYNC::FSASYNC_STATUS_UNSERVICED => 4,
        }
    }

    /// The status whose integer value is `c`, if there is one.
    pub fn from_code(c: i32) -> (r: Option<FSASYNC>)
        ensures
            r matches Some(s) ==> code_of(s) == c,
            r is None <==> (c < -8 || c > 4),
    {
        match c {
            -8 => Some(FSASYNC::FSASYNC_ERR_NOT_MINE),
            -7 => Some(FSASYNC::FSASYNC_ERR_RETRY_LATER),
            -6 => Some(FSASYNC::FSASYNC_ERR_ALIGNMENT),
            -5 => Some(FSASYNC::FSASYNC_ERR_FAILURE),
            -4 => Some(FSASYNC::FSASYNC_ERR_READING),
            -3 => Some(FSASYNC::FSASYNC_ERR_NOMEMORY),
            -2 => Some(FSASYNC::FSASYNC_ERR_UNKNOWNID),
            -1 => Some(FSASYNC::FSASYNC_ERR_FILEOPEN),
            0 => Some(FSASYNC::FSASYNC_OK),
            1 => Some(FSASYNC::FSASYNC_STATUS_PENDING),
            2 => Some(FSASYNC::FSASYNC_STATUS_INPROGRESS),
            3 => Some(FSASYNC::FSASYNC_STATUS_ABORTED),
            4 => Some(FSASYNC::FSASYNC_STATUS_UNSERVICED),
            _ => None,
        }
    }

    /// The status for a failed I/O operation of the given kind: running out of
    /// memory is reported as such, anything else as a hard failure.
    pub fn from_error_kind(kind: IoErrorKind) -> (r: FSASYNC)
        ensures
            kind == IoErrorKind::OutOfMemory ==> r == FSASYNC::FSASYNC_ERR_NOMEMORY,
            kind == IoErrorKind::Other ==> r == FSASYNC::FSASYNC_ERR_FAILURE,
    {
        match kind {
            IoErrorKind::OutOfMemory => FSASYNC::FSASYNC_ERR_NOMEMORY,
            IoErrorKind::Other => FSASYNC::FSASYNC_ERR_FAILURE,
        }
    }
}

} // verus!
