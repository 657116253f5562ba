//! What the library asks of the operating system, and what it is told.

use crate::stream::StreamId;
use vstd::multiset::Multiset;
use vstd::prelude::*;

verus! {

/// A raw descriptor or handle of the operating system.
pub type RawFile = i64;

/// The error code of a failed system call.
#[derive(Clone, Copy, Debug, PartialEq, Eq, Structural)]
pub struct OsError {
    pub code: i32,
}

/// One system call that a driver performs for the library.
#[derive(Clone, Copy, Debug, PartialEq, Eq, Structural)]
pub enum Request {
    /// Duplicate the handle that is installed for `stream`.
    Duplicate { stream: StreamId },
    /// Make `target` the handle that is installed for `stream`.
    Install { stream: StreamId, target: RawFile },
    /// Close `handle`.
    Close { handle: RawFile },
    /// Open an unnamed, exclusively created file on a memory-backed
    /// filesystem, for reading and writing.
    OpenMemoryFile,
    /// Open the file behind `handle` once more, by the path under which the
    /// process sees its own descriptors, so that the new handle has a cursor
    /// of its own.
    Reopen { handle: RawFile },
    /// Create a fresh, uniquely named directory for temporary files.
    CreateDirectory,
    /// Create the one file in that directory, truncated, for writing.
    CreateFile,
    /// Open the one file in that directory for reading.
    OpenFile,
    /// Remove that directory and its entry.
    RemoveDirectory,
    /// Create a pipe.
    CreatePipe,
    /// Open the null device for writing.
    OpenNull,
    /// Count the bytes that can be read from the pipe end `handle` without
    /// waiting.
    Peek { handle: RawFile },
    /// Read at most `limit` bytes from `handle` into the transfer buffer.
    Read { handle: RawFile, limit: u32 },
    /// Write the first `len` bytes of the transfer buffer to `stream`, all of
    /// them.
    Write { stream: StreamId, len: u32 },
    /// Flush what was written to `stream`.
    Flush { stream: StreamId },
}

/// The outcome of one request.
#[derive(Clone, Copy, Debug, PartialEq, Eq, Structural)]
pub enum Reply {
    /// The call failed.
    Failed(OsError),
    /// The call succeeded and returns nothing.
    Done,
    /// The call succeeded and opened `0`.
    Handle(RawFile),
    /// The call succeeded and opened both ends of a pipe.
    Pair { read: RawFile, write: RawFile },
    /// The call succeeded and counted or transferred that many bytes.
    Count(u32),
}

impl Reply {
    /// Reads the result of a POSIX call that returns a status: -1 is a
    /// failure, with `code` as its error number; after any other status the
    /// call has `granted`.
    pub fn from_status(result: i32, code: i32, granted: Reply) -> (reply: Reply)
        ensures
            reply == (if result == -1 {
                Reply::Failed(OsError { code })
            } else {
                granted
            }),
    {
        if result == -1 {
            Reply::Failed(OsError { code })
        } else {
            granted
        }
    }

    /// Reads the result of a call of a handle-table system that returns a
    /// flag: zero is a failure, with `code` as its error number; after any
    /// other flag the call has `granted`.
    pub fn from_flag(flag: i32, code: i32, granted: Reply) -> (reply: Reply)
        ensures
            reply == (if flag == 0 {
                Reply::Failed(OsError { code })
            } else {
                granted
            }),
    {
        if flag == 0 {
            Reply::Failed(OsError { code })
        } else {
            granted
        }
    }
}

impl Request {
    /// Whether `reply` is a possible outcome of this request. A failure
    /// answers every request.
    pub open spec fn accepts(self, reply: Reply) -> bool {
        match reply {
            Reply::Failed(_) => true,
            Reply::Done => self is Install || self is Close || self is CreateDirectory
                || self is RemoveDirectory || self is Write || self is Flush,
            Reply::Handle(_) => self is Duplicate || self is OpenMemoryFile || self is Reopen
                || self is CreateFile || self is OpenFile || self is OpenNull,
            Reply::Pair { .. } => self is CreatePipe,
            Reply::Count(n) => match self {
                Request::Peek { .. } => true,
                Request::Read { limit, .. } => n <= limit,
                _ => false,
            },
        }
    }

    pub fn admits(&self, reply: &Reply) -> (fits: bool)
        ensures
            fits == self.accepts(*reply),
    {
        match reply {
            Reply::Failed(_) => true,
            Reply::Done => match self {
                Request::Install { .. } | Request::Close { .. } | Request::CreateDirectory
                | Request::RemoveDirectory | Request::Write { .. } | Request::Flush { .. } => true,
                _ => false,
            },
            Reply::Handle(_) => match self {
                Request::Duplicate { .. } | Request::OpenMemoryFile | Request::Reopen { .. }
                | Request::CreateFile | Request::OpenFile | Request::OpenNull => true,
                _ => false,
            },
            Reply::Pair { .. } => match self {
                Request::CreatePipe => true,
                _ => false,
            },
            Reply::Count(n) => match self {
                Request::Peek { .. } => true,
                Request::Read { limit, .. } => *n <= *limit,
                _ => false,
            },
        }
    }
}

/// The handles that are open after `reply` has answered `request`, where
/// `held` were open before: a handle that a close was asked for is gone,
/// whatever the call said, and each handle that a reply names is new.
pub open spec fn settle(held: Multiset<RawFile>, request: Request, reply: Reply) -> Multiset<
    RawFile,
> {
    let kept = match request {
        Request::Close { handle } => held.remove(handle),
        _ => held,
    };
    match reply {
        Reply::Handle(handle) => kept.insert(handle),
        Reply::Pair { read, write } => kept.insert(read).insert(write),
        _ => kept,
    }
}

} // verus!
