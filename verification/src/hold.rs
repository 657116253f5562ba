//! Holding the output of a stream back until it is released.
//!
//! A hold captures the stream. On release the stream is given back and the
//! write side of the store is closed; then what was captured is copied to the
//! stream, one chunk after the other, until a read brings nothing or a call
//! fails. A store that is a pipe is asked what has arrived before each read,
//! so that the release never waits for more. The stream is flushed and the
//! read side closed whatever happened: a release cannot fail.

use crate::buffer::{BufferRedirect, CaptureState, ReadState};
use crate::guard::{answered, Claimed, Failure};
use crate::os::{settle, RawFile, Reply, Request};
use crate::redirect::RetireState;
use crate::registry::RedirectionRegistry;
use crate::store::{Platform, Store};
use crate::stream::StreamId;
use vstd::multiset::Multiset;
use vstd::prelude::*;

verus! {

/// The most that is copied at once, in bytes.
pub const CHUNK: u32 = 4096;

/// The state of releasing a hold.
#[derive(Clone, Copy, Debug, PartialEq, Eq, Structural)]
pub enum DrainState {
    /// The stream is being given back and the write side closed.
    Retiring { retire: RetireState, stream: StreamId, read: RawFile, polls: bool },
    /// A chunk is being read from the store.
    Reading { stream: StreamId, read: RawFile, polls: bool, chunk: ReadState },
    /// The chunk of `len` bytes is being written to the stream.
    Writing { stream: StreamId, read: RawFile, polls: bool, len: u32 },
    /// The stream is being flushed.
    Flushing { stream: StreamId, read: RawFile },
    /// The read side is being closed.
    ClosingRead { read: RawFile },
    /// Nothing is left to do.
    Drained,
}

impl DrainState {
    /// The state in which the release of a hold begins.
    pub open spec fn begin(guard: Claimed, store: Store) -> DrainState {
        DrainState::Retiring {
            retire: RetireState { release: guard.release(), sink: Some(store.write) },
            stream: guard.stream,
            read: store.read,
            polls: store.strategy.polls(),
        }
    }

    /// The state in which the next chunk is read.
    pub open spec fn refill(stream: StreamId, read: RawFile, polls: bool) -> DrainState {
        DrainState::Reading {
            stream,
            read,
            polls,
            chunk: ReadState::begin(polls, read, CHUNK as usize),
        }
    }

    /// What holds of every state that a release reaches: a part that is
    /// still at work has a call pending, no read asks for more than a
    /// chunk, and a chunk is not empty and not longer than was asked for.
    pub open spec fn wf(self) -> bool {
        match self {
            DrainState::Retiring { retire, .. } => retire.pending() is Some,
            DrainState::Reading { chunk, .. } => match chunk {
                ReadState::Peeking { limit, .. } | ReadState::Reading { limit, .. } => limit
                    <= CHUNK,
                _ => false,
            },
            DrainState::Writing { len, .. } => 0 < len <= CHUNK,
            _ => true,
        }
    }

    pub open spec fn pending(self) -> Option<Request> {
        match self {
            DrainState::Retiring { retire, .. } => retire.pending(),
            DrainState::Reading { chunk, .. } => chunk.pending(),
            DrainState::Writing { stream, len, .. } => Some(Request::Write { stream, len }),
            DrainState::Flushing { stream, .. } => Some(Request::Flush { stream }),
            DrainState::ClosingRead { read } => Some(Request::Close { handle: read }),
            DrainState::Drained => None,
        }
    }

    /// The state and the claimed streams after `reply`. A chunk that was
    /// read is written before the next one is read. A read that brings
    /// nothing, and any read or write that fails, ends the copying. A reply
    /// that does not answer the pending request changes nothing.
    pub open spec fn next(self, claimed: Set<StreamId>, reply: Reply) -> (
        DrainState,
        Set<StreamId>,
    ) {
        match self {
            DrainState::Retiring { retire, stream, read, polls } => {
                let (after, flags) = retire.next(claimed, reply);
                if after.pending() is None {
                    (DrainState::refill(stream, read, polls), flags)
                } else {
                    (DrainState::Retiring { retire: after, stream, read, polls }, flags)
                }
            },
            DrainState::Reading { stream, read, polls, chunk } => match chunk.next(reply) {
                ReadState::Finished { count } => if count == 0 {
                    (DrainState::Flushing { stream, read }, claimed)
                } else {
                    (DrainState::Writing { stream, read, polls, len: count }, claimed)
                },
                ReadState::Failed { .. } => (DrainState::Flushing { stream, read }, claimed),
                after => (DrainState::Reading { stream, read, polls, chunk: after }, claimed),
            },
            DrainState::Writing { stream, read, polls, .. } => match reply {
                Reply::Done => (DrainState::refill(stream, read, polls), claimed),
                Reply::Failed(_) => (DrainState::Flushing { stream, read }, claimed),
                _ => (self, claimed),
            },
            DrainState::Flushing { read, .. } => match reply {
                Reply::Done | Reply::Failed(_) => (DrainState::ClosingRead { read }, claimed),
                _ => (self, claimed),
            },
            DrainState::ClosingRead { .. } => match reply {
                Reply::Done | Reply::Failed(_) => (DrainState::Drained, claimed),
                _ => (self, claimed),
            },
            DrainState::Drained => (self, claimed),
        }
    }

    /// The state and the claimed streams after `replies`, one after the
    /// other.
    pub open spec fn run(self, claimed: Set<StreamId>, replies: Seq<Reply>) -> (
        DrainState,
        Set<StreamId>,
    )
        decreases replies.len(),
    {
        if replies.len() == 0 {
            (self, claimed)
        } else {
            let (after, flags) = self.next(claimed, replies[0]);
            after.run(flags, replies.skip(1))
        }
    }

    /// The stream that is held, for as long as the release has not flushed
    /// it.
    pub open spec fn unflushed(self) -> Option<StreamId> {
        match self {
            DrainState::Retiring { stream, .. }
            | DrainState::Reading { stream, .. }
            | DrainState::Writing { stream, .. }
            | DrainState::Flushing { stream, .. } => Some(stream),
            DrainState::ClosingRead { .. } | DrainState::Drained => None,
        }
    }

    /// Whether, while `replies` come in, `request` is pending at some step
    /// and gets a reply that answers it.
    pub open spec fn gets_answered(
        self,
        claimed: Set<StreamId>,
        replies: Seq<Reply>,
        request: Request,
    ) -> bool
        decreases replies.len(),
    {
        if replies.len() == 0 {
            false
        } else {
            let (after, flags) = self.next(claimed, replies[0]);
            ||| self.pending() == Some(request) && request.accepts(replies[0])
            ||| after.gets_answered(flags, replies.skip(1), request)
        }
    }

    /// The handles that are open on behalf of the hold.
    pub open spec fn holds(self) -> Multiset<RawFile> {
        match self {
            DrainState::Retiring { retire, read, .. } => retire.holds().insert(read),
            DrainState::Reading { read, .. }
            | DrainState::Writing { read, .. }
            | DrainState::Flushing { read, .. }
            | DrainState::ClosingRead { read } => Multiset::singleton(read),
            DrainState::Drained => Multiset::empty(),
        }
    }

    /// The bytes that `reply` says were taken out of the store.
    pub open spec fn taken(self, reply: Reply) -> nat {
        match (self, reply) {
            (
                DrainState::Reading { chunk: ReadState::Reading { limit, .. }, .. },
                Reply::Count(len),
            ) => if len <= limit {
                len as nat
            } else {
                0
            },
            _ => 0,
        }
    }

    /// The bytes that `reply` says were handed to the stream.
    pub open spec fn handed(self, reply: Reply) -> nat {
        match (self, reply) {
            (DrainState::Writing { len, .. }, Reply::Done) => len as nat,
            _ => 0,
        }
    }

    /// The bytes that were taken out of the store and not yet handed on.
    pub open spec fn carried(self) -> nat {
        match self {
            DrainState::Writing { len, .. } => len as nat,
            _ => 0,
        }
    }

    pub(crate) fn fill(stream: StreamId, read: RawFile, polls: bool) -> (state: DrainState)
        ensures
            state == DrainState::refill(stream, read, polls),
    {
        DrainState::Reading {
            stream,
            read,
            polls,
            chunk: ReadState::enter(polls, read, CHUNK as usize),
        }
    }

    pub(crate) fn request(self) -> (request: Option<Request>)
        ensures
            request == self.pending(),
    {
        match self {
            DrainState::Retiring { retire, .. } => retire.request(),
            DrainState::Reading { chunk, .. } => chunk.request(),
            DrainState::Writing { stream, len, .. } => Some(Request::Write { stream, len }),
            DrainState::Flushing { stream, .. } => Some(Request::Flush { stream }),
            DrainState::ClosingRead { read } => Some(Request::Close { handle: read }),
            DrainState::Drained => None,
        }
    }

    pub(crate) fn step(self, registry: &mut RedirectionRegistry, reply: Reply) -> (after:
        DrainState)
        ensures
            (after, final(registry)@) == self.next(old(registry)@, reply),
    {
        match self {
            DrainState::Retiring { retire, stream, read, polls } => {
                let after = retire.step(registry, reply);
                if after.request().is_none() {
                    DrainState::fill(stream, read, polls)
                } else {
                    DrainState::Retiring { retire: after, stream, read, polls }
                }
            },
            DrainState::Reading { stream, read, polls, chunk } => match chunk.step(reply) {
                ReadState::Finished { count } => {
                    if count == 0 {
                        DrainState::Flushing { stream, read }
                    } else {
                        DrainState::Writing { stream, read, polls, len: count }
                    }
                },
                ReadState::Failed { .. } => DrainState::Flushing { stream, read },
                after => DrainState::Reading { stream, read, polls, chunk: after },
            },
            DrainState::Writing { stream, read, polls, .. } => match reply {
                Reply::Done => DrainState::fill(stream, read, polls),
                Reply::Failed(_) => DrainState::Flushing { stream, read },
                _ => self,
            },
            DrainState::Flushing { read, .. } => match reply {
                Reply::Done | Reply::Failed(_) => DrainState::ClosingRead { read },
                _ => self,
            },
            DrainState::ClosingRead { .. } => match reply {
                Reply::Done | Reply::Failed(_) => DrainState::Drained,
                _ => self,
            },
            DrainState::Drained => self,
        }
    }
}

/// A stream whose output is held back, until it is released.
#[derive(Debug)]
pub struct Hold {
    buf_redir: BufferRedirect,
}

/// A hold that is being set up.
#[derive(Debug)]
pub struct Holding {
    capture: crate::buffer::Capture,
}

/// The release of a hold, in progress.
#[derive(Debug)]
pub struct Drain {
    state: DrainState,
}

impl View for Holding {
    type V = CaptureState;

    closed spec fn view(&self) -> CaptureState {
        self.capture@
    }
}

impl View for Drain {
    type V = DrainState;

    closed spec fn view(&self) -> DrainState {
        self.state
    }
}

impl Holding {
    /// The call to perform next, if the set-up has not ended.
    pub fn request(&self) -> (request: Option<Request>)
        ensures
            request == self@.pending(),
    {
        self.capture.request()
    }

    /// Takes the outcome of the pending call.
    pub fn advance(self, registry: &mut RedirectionRegistry, reply: Reply) -> (after: Holding)
        ensures
            (after@, final(registry)@) == self@.next(old(registry)@, reply),
            after@.wf(),
    {
        Holding { capture: self.capture.advance(registry, reply) }
    }

    /// The hold or the error, once the set-up has ended; while a call is
    /// pending, the set-up itself.
    pub fn finish(self) -> (outcome: Result<Result<Hold, Failure>, Holding>)
        ensures
            match outcome {
                Ok(Ok(hold)) => self@ == (CaptureState::Capturing {
                    guard: hold.guard(),
                    store: hold.store(),
                }),
                Ok(Err(error)) => self@ == (CaptureState::Failed { error }),
                Err(holding) => holding@ == self@ && self@.pending() is Some,
            },
    {
        match self.capture.finish() {
            Ok(Ok(buf_redir)) => Ok(Ok(Hold { buf_redir })),
            Ok(Err(error)) => Ok(Err(error)),
            Err(capture) => Err(Holding { capture }),
        }
    }
}

impl Hold {
    /// What the guard of the hold holds.
    pub closed spec fn guard(&self) -> Claimed {
        self.buf_redir.guard()
    }

    /// The store that the output is held in.
    pub closed spec fn store(&self) -> Store {
        self.buf_redir.store()
    }

    /// Begins to hold standard error.
    pub fn stderr(platform: Platform) -> (holding: Holding)
        ensures
            holding@ == CaptureState::begin(StreamId::Stderr, platform),
            holding@.wf(),
    {
        Holding { capture: BufferRedirect::stderr(platform) }
    }

    /// Begins to hold standard output.
    pub fn stdout(platform: Platform) -> (holding: Holding)
        ensures
            holding@ == CaptureState::begin(StreamId::Stdout, platform),
            holding@.wf(),
    {
        Holding { capture: BufferRedirect::stdout(platform) }
    }

    pub fn stream(&self) -> (stream: StreamId)
        ensures
            stream == self.guard().stream,
    {
        self.buf_redir.stream()
    }

    /// Begins to release the hold.
    pub fn release(self) -> (drain: Drain)
        ensures
            drain@ == DrainState::begin(self.guard(), self.store()),
            drain@.wf(),
    {
        let stream = self.buf_redir.stream();
        let polls = self.buf_redir.polls();
        let (buffer, retire) = self.buf_redir.into_inner();
        Drain {
            state: DrainState::Retiring {
                retire: retire.state(),
                stream,
                read: buffer.raw(),
                polls,
            },
        }
    }
}

impl Drain {
    #[verifier::type_invariant]
    spec fn sound(self) -> bool {
        self.state.wf()
    }

    /// The call to perform next; none when the release is over.
    pub fn request(&self) -> (request: Option<Request>)
        ensures
            request == self@.pending(),
            request is None <==> self@ is Drained,
    {
        proof {
            use_type_invariant(self);
            drain_ends(self.state, Set::empty(), Reply::Done);
        }
        self.state.request()
    }

    /// Takes the outcome of the pending call.
    pub fn advance(self, registry: &mut RedirectionRegistry, reply: Reply) -> (after: Drain)
        ensures
            (after@, final(registry)@) == self@.next(old(registry)@, reply),
            after@.wf(),
    {
        proof {
            use_type_invariant(&self);
            drain_ends(self.state, registry@, reply);
        }
        Drain { state: self.state.step(registry, reply) }
    }

    pub fn is_drained(&self) -> (drained: bool)
        ensures
            drained == (self@ is Drained),
    {
        match self.state {
            DrainState::Drained => true,
            _ => false,
        }
    }
}

/// Nothing that is held escapes before the release: setting up a hold asks
/// for no write to a stream, and neither does the part of the release that
/// gives the stream back. A write is asked for only while a chunk is
/// carried, for the chunk's length and to the stream that was held.
pub proof fn hold_prints_only_on_release(capture: CaptureState, drain: DrainState)
    ensures
        !(capture.pending() matches Some(request) && (request is Write || request is Flush)),
        drain is Retiring ==> !(drain.pending() matches Some(request) && (request is Write
            || request is Flush)),
        match drain.pending() {
            Some(Request::Write { stream, len }) => drain.unflushed() == Some(stream)
                && drain.carried() == len && drain is Writing,
            _ => true,
        },
{
}

/// A release never stops before its end: where nothing is pending, the
/// release is over and nothing is open.
pub proof fn drain_ends(state: DrainState, claimed: Set<StreamId>, reply: Reply)
    requires
        state.wf(),
    ensures
        state.next(claimed, reply).0.wf(),
        state.pending() is None <==> state is Drained,
{
}

/// Nothing is copied before the stream is given back: the release of a hold
/// first installs the backup again, closes it and lowers the flag, then
/// closes the write side, and only then reads the first chunk. So what was
/// held goes where the stream went before the hold.
pub proof fn drain_gives_back_first(
    claimed: Set<StreamId>,
    guard: Claimed,
    store: Store,
    restored: Reply,
    closed: Reply,
    shut: Reply,
)
    requires
        answered(restored),
        answered(closed),
        answered(shut),
    ensures
        ({
            let start = DrainState::begin(guard, store);
            let first = start.next(claimed, restored);
            let second = first.0.next(first.1, closed);
            let third = second.0.next(second.1, shut);
            &&& start.wf()
            &&& start.pending() == Some(
                Request::Install { stream: guard.stream, target: guard.backup },
            )
            &&& first.0.pending() == Some(Request::Close { handle: guard.backup })
            &&& second.0.pending() == Some(Request::Close { handle: store.write })
            &&& third == (
                DrainState::refill(guard.stream, store.read, store.strategy.polls()),
                claimed.remove(guard.stream),
            )
        }),
{
}

/// The copying ends only through the flush of the held stream. A step
/// leaves the stream unflushed, and the same stream; or it is the step in
/// which the flush of that stream, which was pending, is answered, and the
/// read side is all that is left to close.
pub proof fn drain_ends_through_flush(state: DrainState, claimed: Set<StreamId>, reply: Reply)
    ensures
        state.unflushed() matches Some(stream) ==> {
            ||| state.next(claimed, reply).0.unflushed() == Some(stream)
            ||| {
                &&& state.pending() == Some(Request::Flush { stream })
                &&& answered(reply)
                &&& state.next(claimed, reply).0 is ClosingRead
            }
        },
        (state is Reading || state is Writing) && !(state.next(claimed, reply).0 is Reading
            || state.next(claimed, reply).0 is Writing) ==> state.next(claimed, reply).0.pending()
            == Some(Request::Flush { stream: state.unflushed().unwrap() }),
        state.next(claimed, reply).0 is Drained ==> state is ClosingRead || state is Drained,
{
}

/// A release that has got past the copying has flushed the held stream:
/// however the copying went and whatever the system replied, the flush of
/// that stream was asked for and answered before the read side is closed
/// and the release ends.
pub proof fn drain_flushes_before_it_ends(
    state: DrainState,
    claimed: Set<StreamId>,
    replies: Seq<Reply>,
    stream: StreamId,
)
    requires
        state.unflushed() == Some(stream),
        state.run(claimed, replies).0.unflushed() is None,
    ensures
        state.gets_answered(claimed, replies, Request::Flush { stream }),
    decreases replies.len(),
{
    if replies.len() > 0 {
        let (after, flags) = state.next(claimed, replies[0]);
        drain_ends_through_flush(state, claimed, replies[0]);
        if after.unflushed() == Some(stream) {
            drain_flushes_before_it_ends(after, flags, replies.skip(1), stream);
        }
    }
}

/// A release whose store is a pipe never waits for output: before each
/// chunk it asks what has arrived, and where nothing has it goes on to the
/// flush and reads nothing.
pub proof fn drain_never_waits(claimed: Set<StreamId>, stream: StreamId, read: RawFile)
    ensures
        DrainState::refill(stream, read, true).pending() == Some(Request::Peek { handle: read }),
        DrainState::refill(stream, read, true).next(claimed, Reply::Count(0)) == (
            DrainState::Flushing { stream, read },
            claimed,
        ),
        DrainState::refill(stream, read, false).pending() == Some(
            Request::Read { handle: read, limit: CHUNK },
        ),
        DrainState::refill(stream, read, false).next(claimed, Reply::Count(0)) == (
            DrainState::Flushing { stream, read },
            claimed,
        ),
{
}

/// No step of a release loses a handle or closes one twice.
pub proof fn drain_keeps_account(state: DrainState, claimed: Set<StreamId>, reply: Reply)
    requires
        state.pending() matches Some(request) && request.accepts(reply),
    ensures
        state.next(claimed, reply).0.holds() == settle(
            state.holds(),
            state.pending().unwrap(),
            reply,
        ),
{
    let after = state.next(claimed, reply).0;
    if let DrainState::Retiring { retire, .. } = state {
        crate::redirect::retire_keeps_account(retire, claimed, reply);
    }
    assert(after.holds() =~= settle(state.holds(), state.pending().unwrap(), reply));
}

/// What is taken out of the store is handed to the stream before anything
/// more is taken, and nothing else is handed to it: the bytes that a step
/// carries over are those it carried before, and those it took, less those
/// it handed on; and a write that fails drops the chunk it was given.
pub proof fn drain_copies_in_order(state: DrainState, claimed: Set<StreamId>, reply: Reply)
    requires
        state.wf(),
        state.pending() matches Some(request) && request.accepts(reply),
    ensures
        state.handed(reply) <= state.carried(),
        state.taken(reply) > 0 ==> state.carried() == 0,
        !(state is Writing && reply is Failed) ==> state.next(claimed, reply).0.carried()
            == state.carried() + state.taken(reply) - state.handed(reply),
        state is Writing && reply is Failed ==> state.next(claimed, reply).0.carried() == 0,
{
}

} // verus!
