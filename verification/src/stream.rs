//! The two streams that can be redirected.

use vstd::prelude::*;

verus! {

/// One of the two process-wide output streams.
#[derive(Clone, Copy, Debug, PartialEq, Eq, Structural)]
pub enum StreamId {
    Stdout,
    Stderr,
}

impl StreamId {
    /// The stream that `self` is not.
    pub open spec fn other(self) -> StreamId {
        match self {
            StreamId::Stdout => StreamId::Stderr,
            StreamId::Stderr => StreamId::Stdout,
        }
    }

    /// The descriptor number of the stream on a POSIX system.
    pub open spec fn descriptor_number(self) -> int {
        match self {
            StreamId::Stdout => 1,
            StreamId::Stderr => 2,
        }
    }

    /// Standard error if `is_stderr`, standard output otherwise.
    pub fn from_flag(is_stderr: bool) -> (stream: StreamId)
        ensures
            stream == (if is_stderr { StreamId::Stderr } else { StreamId::Stdout }),
    {
        if is_stderr {
            StreamId::Stderr
        } else {
            StreamId::Stdout
        }
    }

    pub fn is_stderr(self) -> (flag: bool)
        ensures
            flag == (self == StreamId::Stderr),
    {
        match self {
            StreamId::Stdout => false,
            StreamId::Stderr => true,
        }
    }

    pub fn opposite(self) -> (stream: StreamId)
        ensures
            stream == self.other(),
            stream != self,
    {
        match self {
            StreamId::Stdout => StreamId::Stderr,
            StreamId::Stderr => StreamId::Stdout,
        }
    }

    pub fn descriptor(self) -> (fd: i32)
        ensures
            fd == self.descriptor_number(),
    {
        match self {
            StreamId::Stdout => 1,
            StreamId::Stderr => 2,
        }
    }
}

} // verus!
