//! Capturing a stream in a store.
//!
//! A capture makes a store, then redirects the stream into the store's write
//! side and keeps the read side. Where the stream cannot be claimed, both
//! sides are closed before the error is surfaced.
//!
//! While the capture is active, a read from a store that is a pipe first
//! counts the bytes that have arrived, and returns zero bytes where there
//! are none: that means "nothing yet". Once the read side has been taken out
//! of the capture the write side is closed, and a read of zero bytes from it
//! means that the captured output has ended.

use crate::guard::{ClaimState, Claimed, Failure};
use crate::os::{settle, OsError, RawFile, Reply, Request};
use crate::redirect::{AsRawFile, Redirect, Retire, RetireState};
use crate::registry::RedirectionRegistry;
use crate::store::{AllocationState, Platform, ReadSide, Store, WriteSide};
use crate::stream::StreamId;
use vstd::multiset::Multiset;
use vstd::prelude::*;

verus! {

/// The state of setting up a capture.
#[derive(Clone, Copy, Debug, PartialEq, Eq, Structural)]
pub enum CaptureState {
    /// The store is being made.
    Allocating { stream: StreamId, allocation: AllocationState },
    /// The stream is being claimed for the write side.
    Claiming { store: Store, claim: ClaimState },
    /// The stream was not claimed: the write side is being closed.
    ClosingWrite { store: Store, error: Failure },
    /// The stream was not claimed: the read side is being closed.
    ClosingRead { read: RawFile, error: Failure },
    /// The stream is captured.
    Capturing { guard: Claimed, store: Store },
    /// Nothing is captured and nothing is open.
    Failed { error: Failure },
}

impl CaptureState {
    /// The state in which a capture of `stream` on `platform` begins.
    pub open spec fn begin(stream: StreamId, platform: Platform) -> CaptureState {
        CaptureState::Allocating { stream, allocation: AllocationState::begin(platform.first()) }
    }

    /// What holds of every state that a capture reaches: a part that is
    /// still at work has a call pending.
    pub open spec fn wf(self) -> bool {
        match self {
            CaptureState::Allocating { allocation, .. } => allocation.pending() is Some,
            CaptureState::Claiming { claim, .. } => claim.wf() && claim.pending() is Some,
            _ => true,
        }
    }

    pub open spec fn pending(self) -> Option<Request> {
        match self {
            CaptureState::Allocating { allocation, .. } => allocation.pending(),
            CaptureState::Claiming { claim, .. } => claim.pending(),
            CaptureState::ClosingWrite { store, .. } => Some(Request::Close { handle: store.write }),
            CaptureState::ClosingRead { read, .. } => Some(Request::Close { handle: read }),
            CaptureState::Capturing { .. } | CaptureState::Failed { .. } => None,
        }
    }

    /// The state and the claimed streams after `reply`. A reply that does not
    /// answer the pending request changes nothing.
    pub open spec fn next(self, claimed: Set<StreamId>, reply: Reply) -> (
        CaptureState,
        Set<StreamId>,
    ) {
        match self {
            CaptureState::Allocating { stream, allocation } => match allocation.next(reply) {
                AllocationState::Ready { store } => (
                    CaptureState::Claiming {
                        store,
                        claim: ClaimState::Duplicating { stream, target: store.write },
                    },
                    claimed,
                ),
                AllocationState::Failed { error } => (
                    CaptureState::Failed { error: Failure::ResourceExhausted(error) },
                    claimed,
                ),
                after => (CaptureState::Allocating { stream, allocation: after }, claimed),
            },
            CaptureState::Claiming { store, claim } => {
                let (after, flags) = claim.next(claimed, reply);
                match after {
                    ClaimState::Held { guard } => (CaptureState::Capturing { guard, store }, flags),
                    ClaimState::Failed { error } => (
                        CaptureState::ClosingWrite { store, error: error.failure() },
                        flags,
                    ),
                    _ => (CaptureState::Claiming { store, claim: after }, flags),
                }
            },
            CaptureState::ClosingWrite { store, error } => match reply {
                Reply::Done | Reply::Failed(_) => (
                    CaptureState::ClosingRead { read: store.read, error },
                    claimed,
                ),
                _ => (self, claimed),
            },
            CaptureState::ClosingRead { error, .. } => match reply {
                Reply::Done | Reply::Failed(_) => (CaptureState::Failed { error }, claimed),
                _ => (self, claimed),
            },
            CaptureState::Capturing { .. } | CaptureState::Failed { .. } => (self, claimed),
        }
    }

    /// The state and the claimed streams after `replies`, one after the
    /// other.
    pub open spec fn run(self, claimed: Set<StreamId>, replies: Seq<Reply>) -> (
        CaptureState,
        Set<StreamId>,
    )
        decreases replies.len(),
    {
        if replies.len() == 0 {
            (self, claimed)
        } else {
            let (after, flags) = self.next(claimed, replies[0]);
            after.run(flags, replies.skip(1))
        }
    }

    /// Whether each of `replies` answers the call that is pending when it
    /// comes.
    pub open spec fn answered_by(self, claimed: Set<StreamId>, replies: Seq<Reply>) -> bool
        decreases replies.len(),
    {
        if replies.len() == 0 {
            true
        } else {
            let (after, flags) = self.next(claimed, replies[0]);
            &&& self.pending() matches Some(request) && request.accepts(replies[0])
            &&& after.answered_by(flags, replies.skip(1))
        }
    }

    /// The handles that the system has open after `replies`, where `held`
    /// were open before: each call that was pending is settled with its
    /// reply.
    pub open spec fn ledger(
        self,
        claimed: Set<StreamId>,
        replies: Seq<Reply>,
        held: Multiset<RawFile>,
    ) -> Multiset<RawFile>
        decreases replies.len(),
    {
        if replies.len() == 0 {
            held
        } else {
            let (after, flags) = self.next(claimed, replies[0]);
            let settled = match self.pending() {
                Some(request) => settle(held, request, replies[0]),
                None => held,
            };
            after.ledger(flags, replies.skip(1), settled)
        }
    }

    /// Whether the capture cannot win `stream` any more, nor has touched its
    /// flag.
    pub open spec fn barred(self, stream: StreamId) -> bool {
        match self {
            CaptureState::Allocating { stream: capturing, .. } => capturing == stream,
            CaptureState::Claiming { claim, .. } => claim.barred(stream),
            CaptureState::ClosingWrite { error, .. }
            | CaptureState::ClosingRead { error, .. }
            | CaptureState::Failed { error } => error is AlreadyRedirected
                || error is ResourceExhausted,
            CaptureState::Capturing { .. } => false,
        }
    }

    /// The handles that are open on behalf of the capture.
    pub open spec fn holds(self) -> Multiset<RawFile> {
        match self {
            CaptureState::Allocating { allocation, .. } => allocation.holds(),
            CaptureState::Claiming { store, claim } => claim.holds().insert(store.write).insert(
                store.read,
            ),
            CaptureState::ClosingWrite { store, .. } => Multiset::singleton(store.write).insert(
                store.read,
            ),
            CaptureState::ClosingRead { read, .. } => Multiset::singleton(read),
            CaptureState::Capturing { guard, store } => Multiset::singleton(guard.backup).insert(
                store.write,
            ).insert(store.read),
            CaptureState::Failed { .. } => Multiset::empty(),
        }
    }

    /// The outcome of a capture that has ended.
    pub open spec fn outcome(self) -> Option<Result<(Claimed, Store), Failure>> {
        match self {
            CaptureState::Capturing { guard, store } => Some(Ok((guard, store))),
            CaptureState::Failed { error } => Some(Err(error)),
            _ => None,
        }
    }

    pub(crate) fn enter(stream: StreamId, platform: Platform) -> (state: CaptureState)
        ensures
            state == CaptureState::begin(stream, platform),
    {
        CaptureState::Allocating {
            stream,
            allocation: AllocationState::enter(platform.first_strategy()),
        }
    }

    pub(crate) fn request(self) -> (request: Option<Request>)
        ensures
            request == self.pending(),
    {
        match self {
            CaptureState::Allocating { allocation, .. } => allocation.request(),
            CaptureState::Claiming { claim, .. } => claim.request(),
            CaptureState::ClosingWrite { store, .. } => Some(Request::Close { handle: store.write }),
            CaptureState::ClosingRead { read, .. } => Some(Request::Close { handle: read }),
            CaptureState::Capturing { .. } | CaptureState::Failed { .. } => None,
        }
    }

    pub(crate) fn step(self, registry: &mut RedirectionRegistry, reply: Reply) -> (after:
        CaptureState)
        ensures
            (after, final(registry)@) == self.next(old(registry)@, reply),
    {
        match self {
            CaptureState::Allocating { stream, allocation } => match allocation.step(reply) {
                AllocationState::Ready { store } => CaptureState::Claiming {
                    store,
                    claim: ClaimState::Duplicating { stream, target: store.write },
                },
                AllocationState::Failed { error } => CaptureState::Failed {
                    error: Failure::ResourceExhausted(error),
                },
                after => CaptureState::Allocating { stream, allocation: after },
            },
            CaptureState::Claiming { store, claim } => {
                let after = claim.step(registry, reply);
                match after {
                    ClaimState::Held { guard } => CaptureState::Capturing { guard, store },
                    ClaimState::Failed { error } => CaptureState::ClosingWrite {
                        store,
                        error: error.into_failure(),
                    },
                    _ => CaptureState::Claiming { store, claim: after },
                }
            },
            CaptureState::ClosingWrite { store, error } => match reply {
                Reply::Done | Reply::Failed(_) => CaptureState::ClosingRead {
                    read: store.read,
                    error,
                },
                _ => self,
            },
            CaptureState::ClosingRead { error, .. } => match reply {
                Reply::Done | Reply::Failed(_) => CaptureState::Failed { error },
                _ => self,
            },
            CaptureState::Capturing { .. } | CaptureState::Failed { .. } => self,
        }
    }
}

/// The most that one read transfers.
pub open spec fn read_limit(len: usize) -> u32 {
    if len > u32::MAX {
        u32::MAX
    } else {
        len as u32
    }
}

/// The state of one read from a read side.
#[derive(Clone, Copy, Debug, PartialEq, Eq, Structural)]
pub enum ReadState {
    /// The bytes that have arrived are being counted.
    Peeking { handle: RawFile, limit: u32 },
    /// Bytes are being read.
    Reading { handle: RawFile, limit: u32 },
    /// The read has ended: that many bytes are in the transfer buffer.
    Finished { count: u32 },
    /// The read has failed.
    Failed { error: OsError },
}

impl ReadState {
    /// The state in which a read of at most `len` bytes begins: it counts
    /// first where `polls`.
    pub open spec fn begin(polls: bool, handle: RawFile, len: usize) -> ReadState {
        if polls {
            ReadState::Peeking { handle, limit: read_limit(len) }
        } else {
            ReadState::Reading { handle, limit: read_limit(len) }
        }
    }

    pub open spec fn pending(self) -> Option<Request> {
        match self {
            ReadState::Peeking { handle, .. } => Some(Request::Peek { handle }),
            ReadState::Reading { handle, limit } => Some(Request::Read { handle, limit }),
            ReadState::Finished { .. } | ReadState::Failed { .. } => None,
        }
    }

    /// The state after `reply`. Where nothing has arrived the read ends with
    /// zero bytes and reads nothing. A reply that does not answer the
    /// pending request changes nothing.
    pub open spec fn next(self, reply: Reply) -> ReadState {
        match self {
            ReadState::Peeking { handle, limit } => match reply {
                Reply::Count(available) => if available == 0 {
                    ReadState::Finished { count: 0 }
                } else {
                    ReadState::Reading { handle, limit }
                },
                Reply::Failed(error) => ReadState::Failed { error },
                _ => self,
            },
            ReadState::Reading { limit, .. } => match reply {
                Reply::Count(count) => if count <= limit {
                    ReadState::Finished { count }
                } else {
                    self
                },
                Reply::Failed(error) => ReadState::Failed { error },
                _ => self,
            },
            ReadState::Finished { .. } | ReadState::Failed { .. } => self,
        }
    }

    pub(crate) fn enter(polls: bool, handle: RawFile, len: usize) -> (state: ReadState)
        ensures
            state == ReadState::begin(polls, handle, len),
    {
        let limit: u32 = if len > 0xffff_ffff {
            0xffff_ffff
        } else {
            len as u32
        };
        if polls {
            ReadState::Peeking { handle, limit }
        } else {
            ReadState::Reading { handle, limit }
        }
    }

    pub(crate) fn request(self) -> (request: Option<Request>)
        ensures
            request == self.pending(),
    {
        match self {
            ReadState::Peeking { handle, .. } => Some(Request::Peek { handle }),
            ReadState::Reading { handle, limit } => Some(Request::Read { handle, limit }),
            ReadState::Finished { .. } | ReadState::Failed { .. } => None,
        }
    }

    pub(crate) fn step(self, reply: Reply) -> (after: ReadState)
        ensures
            after == self.next(reply),
    {
        match self {
            ReadState::Peeking { handle, limit } => match reply {
                Reply::Count(available) => {
                    if available == 0 {
                        ReadState::Finished { count: 0 }
                    } else {
                        ReadState::Reading { handle, limit }
                    }
                },
                Reply::Failed(error) => ReadState::Failed { error },
                _ => self,
            },
            ReadState::Reading { limit, .. } => match reply {
                Reply::Count(count) => {
                    if count <= limit {
                        ReadState::Finished { count }
                    } else {
                        self
                    }
                },
                Reply::Failed(error) => ReadState::Failed { error },
                _ => self,
            },
            ReadState::Finished { .. } | ReadState::Failed { .. } => self,
        }
    }
}

/// A read in progress.
#[derive(Debug)]
pub struct ReadOp {
    state: ReadState,
}

impl View for ReadOp {
    type V = ReadState;

    closed spec fn view(&self) -> ReadState {
        self.state
    }
}

impl ReadOp {
    /// The call to perform next, if the read has not ended.
    pub fn request(&self) -> (request: Option<Request>)
        ensures
            request == self@.pending(),
    {
        self.state.request()
    }

    /// Takes the outcome of the pending call.
    pub fn advance(self, reply: Reply) -> (after: ReadOp)
        ensures
            after@ == self@.next(reply),
    {
        ReadOp { state: self.state.step(reply) }
    }

    /// The number of bytes that are in the transfer buffer, or the error,
    /// once the read has ended; before that, the read itself.
    pub fn finish(self) -> (outcome: Result<Result<usize, OsError>, ReadOp>)
        ensures
            match outcome {
                Ok(Ok(count)) => self@ matches ReadState::Finished { count: read }
                    && count == read,
                Ok(Err(error)) => self@ == (ReadState::Failed { error }),
                Err(unfinished) => unfinished@ == self@ && self@.pending() is Some,
            },
    {
        match self.state {
            ReadState::Finished { count } => Ok(Ok(count as usize)),
            ReadState::Failed { error } => Ok(Err(error)),
            _ => Err(self),
        }
    }
}

/// A stream that is captured in a store, until it is released.
#[derive(Debug)]
pub struct BufferRedirect {
    redir: Redirect<WriteSide>,
    outer: ReadSide,
}

/// The read side of a capture that has ended.
#[derive(Debug)]
pub struct Buffer {
    inner: ReadSide,
}

/// A capture that is being set up.
#[derive(Debug)]
pub struct Capture {
    state: CaptureState,
}

impl View for Capture {
    type V = CaptureState;

    closed spec fn view(&self) -> CaptureState {
        self.state
    }
}

impl Capture {
    #[verifier::type_invariant]
    spec fn sound(self) -> bool {
        self.state.wf()
    }

    /// The call to perform next, if the set-up has not ended.
    pub fn request(&self) -> (request: Option<Request>)
        ensures
            request == self@.pending(),
    {
        self.state.request()
    }

    /// Takes the outcome of the pending call.
    pub fn advance(self, registry: &mut RedirectionRegistry, reply: Reply) -> (after: Capture)
        ensures
            (after@, final(registry)@) == self@.next(old(registry)@, reply),
            after@.wf(),
    {
        proof {
            use_type_invariant(&self);
            capture_ends(self.state, registry@, reply);
        }
        Capture { state: self.state.step(registry, reply) }
    }

    /// The capture or the error, once the set-up has ended; while a call is
    /// pending, the set-up itself.
    pub fn finish(self) -> (outcome: Result<Result<BufferRedirect, Failure>, Capture>)
        ensures
            match outcome {
                Ok(Ok(capture)) => self@ == (CaptureState::Capturing {
                    guard: capture.guard(),
                    store: capture.store(),
                }),
                Ok(Err(error)) => self@ == (CaptureState::Failed { error }),
                Err(capture) => capture@ == self@ && self@.pending() is Some,
            },
    {
        proof {
            use_type_invariant(&self);
        }
        match self.state {
            CaptureState::Capturing { guard, store } => Ok(
                Ok(
                    BufferRedirect {
                        redir: Redirect::of(guard, WriteSide::of(store)),
                        outer: ReadSide::of(store),
                    },
                ),
            ),
            CaptureState::Failed { error } => Ok(Err(error)),
            _ => Err(self),
        }
    }
}

impl BufferRedirect {
    /// What the guard of the capture holds.
    pub closed spec fn guard(&self) -> Claimed {
        self.redir.guard()
    }

    /// The store that the stream is captured in.
    pub closed spec fn store(&self) -> Store {
        Store {
            write: self.redir.file().raw_file(),
            read: self.outer.raw_file(),
            strategy: self.outer.backing(),
        }
    }

    /// Begins to capture standard output.
    pub fn stdout(platform: Platform) -> (capture: Capture)
        ensures
            capture@ == CaptureState::begin(StreamId::Stdout, platform),
            capture@.wf(),
    {
        Capture { state: CaptureState::enter(StreamId::Stdout, platform) }
    }

    /// Begins to capture standard error.
    pub fn stderr(platform: Platform) -> (capture: Capture)
        ensures
            capture@ == CaptureState::begin(StreamId::Stderr, platform),
            capture@.wf(),
    {
        Capture { state: CaptureState::enter(StreamId::Stderr, platform) }
    }

    pub fn stream(&self) -> (stream: StreamId)
        ensures
            stream == self.guard().stream,
    {
        self.redir.stream()
    }

    /// Whether a read counts what has arrived before it reads.
    pub fn polls(&self) -> (polls: bool)
        ensures
            polls == self.store().strategy.polls(),
    {
        self.outer.strategy().is_pipe()
    }

    /// Begins a read of at most `len` bytes of what has been captured.
    pub fn read(&self, len: usize) -> (read: ReadOp)
        ensures
            read@ == ReadState::begin(self.store().strategy.polls(), self.store().read, len),
    {
        ReadOp {
            state: ReadState::enter(
                self.outer.strategy().is_pipe(),
                self.outer.as_raw_file(),
                len,
            ),
        }
    }

    /// Stops capturing and hands out the read side: the stream is given back
    /// and the write side is closed, by the second part of the result. What
    /// was captured stays readable.
    pub fn into_inner(self) -> (parts: (Buffer, Retire))
        ensures
            parts.0.handle() == self.store().read,
            parts.1@ == (RetireState {
                release: self.guard().release(),
                sink: Some(self.store().write),
            }),
    {
        (Buffer { inner: self.outer }, self.redir.retire())
    }
}

impl Buffer {
    /// The handle of the read side.
    pub closed spec fn handle(&self) -> RawFile {
        self.inner.raw_file()
    }

    pub(crate) fn raw(&self) -> (handle: RawFile)
        ensures
            handle == self.handle(),
    {
        self.inner.as_raw_file()
    }

    /// Begins a read of at most `len` bytes. Zero bytes read mean that the
    /// captured output has ended.
    pub fn read(&self, len: usize) -> (read: ReadOp)
        ensures
            read@ == ReadState::begin(false, self.handle(), len),
    {
        ReadOp { state: ReadState::enter(false, self.inner.as_raw_file(), len) }
    }

    /// Gives the read side up: the call that closes it.
    pub fn close(self) -> (request: Request)
        ensures
            request == (Request::Close { handle: self.handle() }),
    {
        Request::Close { handle: self.inner.as_raw_file() }
    }
}

/// A read that polls never waits for bytes. It first asks what has arrived.
/// Where nothing has, it ends with zero bytes and no read is asked for; a
/// read is asked for only after a count that is not zero, and then for no
/// more than fits. A read that does not poll asks for the read at once.
pub proof fn polling_read_never_waits(handle: RawFile, len: usize, available: u32)
    ensures
        ReadState::begin(true, handle, len).pending() == Some(Request::Peek { handle }),
        ReadState::begin(true, handle, len).next(Reply::Count(0)) == (ReadState::Finished {
            count: 0,
        }),
        ReadState::begin(true, handle, len).next(Reply::Count(0)).pending() is None,
        available > 0 ==> ReadState::begin(true, handle, len).next(Reply::Count(available)).pending()
            == Some(Request::Read { handle, limit: read_limit(len) }),
        ReadState::begin(false, handle, len).pending() == Some(
            Request::Read { handle, limit: read_limit(len) },
        ),
        len <= u32::MAX ==> read_limit(len) == len,
        len > u32::MAX ==> read_limit(len) == u32::MAX,
{
}

/// Whatever state a read is in and whatever the reply: a read of bytes is
/// pending after a step only where it was pending before, or where bytes
/// were counted and there were some. And a read ends with just the count
/// that the system gave for it, or with the error of the call that failed.
pub proof fn read_follows_the_count(state: ReadState, reply: Reply)
    ensures
        state.next(reply) is Reading ==> state is Reading || (state is Peeking && reply is Count
            && reply->Count_0 > 0),
        state is Peeking && reply == Reply::Count(0) ==> state.next(reply) == (ReadState::Finished {
            count: 0,
        }),
        match (state, reply) {
            (ReadState::Reading { limit, .. }, Reply::Count(count)) => count <= limit
                ==> state.next(reply) == (ReadState::Finished { count }),
            _ => true,
        },
        match state.next(reply) {
            ReadState::Failed { error } => state is Failed || reply == Reply::Failed(error),
            _ => true,
        },
{
}

/// A capture that has nothing pending has ended, with the stream captured or
/// with an error.
pub proof fn capture_ends(state: CaptureState, claimed: Set<StreamId>, reply: Reply)
    requires
        state.wf(),
    ensures
        state.next(claimed, reply).0.wf(),
        state.pending() is None <==> state.outcome() is Some,
{
    if let CaptureState::Claiming { claim, .. } = state {
        crate::guard::claim_ends(claim, claimed, reply);
        crate::guard::claim_ends(claim.next(claimed, reply).0, claimed, reply);
    }
}

/// While a stream is claimed no capture of it gets the stream, whatever the
/// system replies, and none touches the flags: a second capture, and a
/// second hold, of one stream fails.
pub proof fn claimed_stream_is_not_captured(
    state: CaptureState,
    stream: StreamId,
    claimed: Set<StreamId>,
    replies: Seq<Reply>,
)
    requires
        claimed.contains(stream),
        state.barred(stream),
    ensures
        state.run(claimed, replies).0.barred(stream),
        state.run(claimed, replies).0.outcome() matches Some(outcome) ==> outcome is Err,
        state.run(claimed, replies).1 == claimed,
    decreases replies.len(),
{
    if replies.len() > 0 {
        let (after, flags) = state.next(claimed, replies[0]);
        if let CaptureState::Claiming { claim, .. } = state {
            crate::guard::claimed_stream_stays_barred(claim, stream, claimed, replies[0]);
        }
        claimed_stream_is_not_captured(after, stream, claimed, replies.skip(1));
    }
}

/// No step of a capture loses a handle or closes one twice. So a capture
/// that has failed has closed all that it opened, and one that has succeeded
/// holds the backup and the two sides of its store.
pub proof fn capture_keeps_account(state: CaptureState, claimed: Set<StreamId>, reply: Reply)
    requires
        state.wf(),
        state.pending() matches Some(request) && request.accepts(reply),
    ensures
        state.next(claimed, reply).0.holds() == settle(
            state.holds(),
            state.pending().unwrap(),
            reply,
        ),
{
    let after = state.next(claimed, reply).0;
    match state {
        CaptureState::Allocating { allocation, .. } => {
            crate::store::allocation_keeps_account(allocation, reply);
        },
        CaptureState::Claiming { claim, .. } => {
            crate::guard::claim_keeps_account(claim, claimed, reply);
        },
        _ => {},
    }
    assert(after.holds() =~= settle(state.holds(), state.pending().unwrap(), reply));
}

/// Over a whole set-up no handle is lost: what the system has open in the
/// end is what the capture holds. So when a capture has failed, every handle
/// that was opened for it has been closed again, whichever call failed; and
/// when it has succeeded, the backup and the two sides of the store are
/// open and nothing else.
pub proof fn capture_leaves_nothing_behind(
    state: CaptureState,
    claimed: Set<StreamId>,
    replies: Seq<Reply>,
)
    requires
        state.wf(),
        state.answered_by(claimed, replies),
    ensures
        state.ledger(claimed, replies, state.holds()) == state.run(claimed, replies).0.holds(),
        state.run(claimed, replies).0 is Failed ==> state.ledger(claimed, replies, state.holds())
            == Multiset::<RawFile>::empty(),
    decreases replies.len(),
{
    if replies.len() > 0 {
        let (after, flags) = state.next(claimed, replies[0]);
        capture_ends(state, claimed, replies[0]);
        capture_keeps_account(state, claimed, replies[0]);
        capture_leaves_nothing_behind(after, flags, replies.skip(1));
    }
}

} // verus!
