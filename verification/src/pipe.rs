//! Capturing a stream in a pipe, with the stream in the type.
//!
//! This is the capture for a system with a handle table, where a pipe is
//! the only store. A read counts the bytes that have arrived before it
//! reads, and returns zero bytes where there are none.

use crate::buffer::{Buffer, BufferRedirect, Capture, CaptureState, ReadOp, ReadState};
use crate::guard::{Claimed, Failure};
use crate::os::{Reply, Request};
use crate::redirect::{Retire, RetireState};
use crate::registry::RedirectionRegistry;
use crate::store::{Platform, Store};
use crate::stream::StreamId;
use std::marker::PhantomData;
use vstd::prelude::*;

verus! {

/// Gag type: standard output.
#[derive(Debug)]
pub struct Stdout;

/// Gag type: standard error.
#[derive(Debug)]
pub struct Stderr;

/// A type that stands for one stream.
pub trait Device {
    spec fn id() -> StreamId;

    fn stream() -> (stream: StreamId)
        ensures
            stream == Self::id(),
    ;
}

impl Device for Stdout {
    open spec fn id() -> StreamId {
        StreamId::Stdout
    }

    fn stream() -> (stream: StreamId) {
        StreamId::Stdout
    }
}

impl Device for Stderr {
    open spec fn id() -> StreamId {
        StreamId::Stderr
    }

    fn stream() -> (stream: StreamId) {
        StreamId::Stderr
    }
}

/// The stream `Io`, captured in a pipe until it is released.
#[derive(Debug)]
pub struct Gag<Io> {
    capture: BufferRedirect,
    marker: PhantomData<Io>,
}

/// A gag that is being set up.
#[derive(Debug)]
pub struct Gagging<Io> {
    capture: Capture,
    marker: PhantomData<Io>,
}

impl<Io> View for Gagging<Io> {
    type V = CaptureState;

    closed spec fn view(&self) -> CaptureState {
        self.capture@
    }
}

/// Begins to capture standard output in a pipe.
pub fn stdout() -> (gagging: Gagging<Stdout>)
    ensures
        gagging@ == CaptureState::begin(StreamId::Stdout, Platform::Windows),
        gagging@.wf(),
{
    Gag::redirect()
}

/// Begins to capture standard error in a pipe.
pub fn stderr() -> (gagging: Gagging<Stderr>)
    ensures
        gagging@ == CaptureState::begin(StreamId::Stderr, Platform::Windows),
        gagging@.wf(),
{
    Gag::redirect()
}

impl<Io: Device> Gag<Io> {
    fn redirect() -> (gagging: Gagging<Io>)
        ensures
            gagging@ == CaptureState::begin(Io::id(), Platform::Windows),
            gagging@.wf(),
    {
        let capture = match Io::stream() {
            StreamId::Stdout => BufferRedirect::stdout(Platform::Windows),
            StreamId::Stderr => BufferRedirect::stderr(Platform::Windows),
        };
        Gagging { capture, marker: PhantomData }
    }
}

impl<Io> Gagging<Io> {
    /// The call to perform next, if the set-up has not ended.
    pub fn request(&self) -> (request: Option<Request>)
        ensures
            request == self@.pending(),
    {
        self.capture.request()
    }

    /// Takes the outcome of the pending call.
    pub fn advance(self, registry: &mut RedirectionRegistry, reply: Reply) -> (after: Gagging<Io>)
        ensures
            (after@, final(registry)@) == self@.next(old(registry)@, reply),
            after@.wf(),
    {
        Gagging { capture: self.capture.advance(registry, reply), marker: PhantomData }
    }

    /// The gag or the error, once the set-up has ended; while a call is
    /// pending, the set-up itself.
    pub fn finish(self) -> (outcome: Result<Result<Gag<Io>, Failure>, Gagging<Io>>)
        ensures
            match outcome {
                Ok(Ok(gag)) => self@ == (CaptureState::Capturing {
                    guard: gag.guard(),
                    store: gag.store(),
                }),
                Ok(Err(error)) => self@ == (CaptureState::Failed { error }),
                Err(gagging) => gagging@ == self@ && self@.pending() is Some,
            },
    {
        match self.capture.finish() {
            Ok(Ok(capture)) => Ok(Ok(Gag { capture, marker: PhantomData })),
            Ok(Err(error)) => Ok(Err(error)),
            Err(capture) => Err(Gagging { capture, marker: PhantomData }),
        }
    }
}

impl<Io> Gag<Io> {
    /// What the guard of the gag holds.
    pub closed spec fn guard(&self) -> Claimed {
        self.capture.guard()
    }

    /// The store that the stream is captured in.
    pub closed spec fn store(&self) -> Store {
        self.capture.store()
    }

    /// Begins a read of at most `len` bytes of what has been captured.
    pub fn read(&self, len: usize) -> (read: ReadOp)
        ensures
            read@ == ReadState::begin(self.store().strategy.polls(), self.store().read, len),
    {
        self.capture.read(len)
    }

    /// Lifts the gag: the stream is given back and the write end closed, by
    /// the second part of the result; the first part is the read end.
    pub fn release(self) -> (parts: (Buffer, Retire))
        ensures
            parts.0.handle() == self.store().read,
            parts.1@ == (RetireState {
                release: self.guard().release(),
                sink: Some(self.store().write),
            }),
    {
        self.capture.into_inner()
    }
}

} // verus!
