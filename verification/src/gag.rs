//! Discarding what is written to a stream.
//!
//! A gag opens the null device and redirects the stream into it. Where the
//! stream cannot be claimed, the null device is closed before the error is
//! surfaced.

use crate::guard::{ClaimState, Claimed, Failure};
use crate::os::{settle, RawFile, Reply, Request};
use crate::redirect::{AsRawFile, Redirect, Retire, RetireState};
use crate::registry::RedirectionRegistry;
use crate::store::Platform;
use crate::stream::StreamId;
use vstd::multiset::Multiset;
use vstd::prelude::*;

verus! {

/// The path of the null device on `platform`.
pub fn null(platform: Platform) -> (path: &'static str)
    ensures
        path@ == (if platform is Windows {
            "NUL"@
        } else {
            "/dev/null"@
        }),
{
    match platform {
        Platform::Windows => "NUL",
        _ => "/dev/null",
    }
}

/// The null device, open for writing.
#[derive(Debug)]
pub struct NullSink {
    handle: RawFile,
}

impl AsRawFile for NullSink {
    closed spec fn raw_file(&self) -> RawFile {
        self.handle
    }

    fn as_raw_file(&self) -> (raw: RawFile) {
        self.handle
    }
}

/// The state of setting up a gag.
#[derive(Clone, Copy, Debug, PartialEq, Eq, Structural)]
pub enum GagState {
    /// The null device is being opened.
    Opening { stream: StreamId },
    /// The stream is being claimed for the null device.
    Claiming { sink: RawFile, claim: ClaimState },
    /// The stream was not claimed: the null device is being closed.
    ClosingSink { sink: RawFile, error: Failure },
    /// The stream is gagged.
    Gagged { guard: Claimed, sink: RawFile },
    /// Nothing is gagged and nothing is open.
    Failed { error: Failure },
}

impl GagState {
    /// What holds of every state that the set-up reaches: a claim that is
    /// still at work has a call pending.
    pub open spec fn wf(self) -> bool {
        self matches GagState::Claiming { claim, .. } ==> claim.wf() && claim.pending() is Some
    }

    pub open spec fn pending(self) -> Option<Request> {
        match self {
            GagState::Opening { .. } => Some(Request::OpenNull),
            GagState::Claiming { claim, .. } => claim.pending(),
            GagState::ClosingSink { sink, .. } => Some(Request::Close { handle: sink }),
            GagState::Gagged { .. } | GagState::Failed { .. } => None,
        }
    }

    /// The state and the claimed streams after `reply`. A reply that does not
    /// answer the pending request changes nothing.
    pub open spec fn next(self, claimed: Set<StreamId>, reply: Reply) -> (GagState, Set<StreamId>) {
        match self {
            GagState::Opening { stream } => match reply {
                Reply::Handle(sink) => (
                    GagState::Claiming {
                        sink,
                        claim: ClaimState::Duplicating { stream, target: sink },
                    },
                    claimed,
                ),
                Reply::Failed(error) => (
                    GagState::Failed { error: Failure::ResourceExhausted(error) },
                    claimed,
                ),
                _ => (self, claimed),
            },
            GagState::Claiming { sink, claim } => {
                let (after, flags) = claim.next(claimed, reply);
                match after {
                    ClaimState::Held { guard } => (GagState::Gagged { guard, sink }, flags),
                    ClaimState::Failed { error } => (
                        GagState::ClosingSink { sink, error: error.failure() },
                        flags,
                    ),
                    _ => (GagState::Claiming { sink, claim: after }, flags),
                }
            },
            GagState::ClosingSink { error, .. } => match reply {
                Reply::Done | Reply::Failed(_) => (GagState::Failed { error }, claimed),
                _ => (self, claimed),
            },
            GagState::Gagged { .. } | GagState::Failed { .. } => (self, claimed),
        }
    }

    /// The state and the claimed streams after `replies`, one after the
    /// other.
    pub open spec fn run(self, claimed: Set<StreamId>, replies: Seq<Reply>) -> (
        GagState,
        Set<StreamId>,
    )
        decreases replies.len(),
    {
        if replies.len() == 0 {
            (self, claimed)
        } else {
            let (after, flags) = self.next(claimed, replies[0]);
            after.run(flags, replies.skip(1))
        }
    }

    /// Whether each of `replies` answers the call that is pending when it
    /// comes.
    pub open spec fn answered_by(self, claimed: Set<StreamId>, replies: Seq<Reply>) -> bool
        decreases replies.len(),
    {
        if replies.len() == 0 {
            true
        } else {
            let (after, flags) = self.next(claimed, replies[0]);
            &&& self.pending() matches Some(request) && request.accepts(replies[0])
            &&& after.answered_by(flags, replies.skip(1))
        }
    }

    /// The handles that the system has open after `replies`, where `held`
    /// were open before: each call that was pending is settled with its
    /// reply.
    pub open spec fn ledger(
        self,
        claimed: Set<StreamId>,
        replies: Seq<Reply>,
        held: Multiset<RawFile>,
    ) -> Multiset<RawFile>
        decreases replies.len(),
    {
        if replies.len() == 0 {
            held
        } else {
            let (after, flags) = self.next(claimed, replies[0]);
            let settled = match self.pending() {
                Some(request) => settle(held, request, replies[0]),
                None => held,
            };
            after.ledger(flags, replies.skip(1), settled)
        }
    }

    /// Whether the set-up cannot win `stream` any more, nor has touched its
    /// flag.
    pub open spec fn barred(self, stream: StreamId) -> bool {
        match self {
            GagState::Opening { stream: gagging } => gagging == stream,
            GagState::Claiming { claim, .. } => claim.barred(stream),
            GagState::ClosingSink { error, .. } | GagState::Failed { error } => error
                is AlreadyRedirected || error is ResourceExhausted,
            GagState::Gagged { .. } => false,
        }
    }

    /// The handles that are open on behalf of the gag.
    pub open spec fn holds(self) -> Multiset<RawFile> {
        match self {
            GagState::Opening { .. } | GagState::Failed { .. } => Multiset::empty(),
            GagState::Claiming { sink, claim } => claim.holds().insert(sink),
            GagState::ClosingSink { sink, .. } => Multiset::singleton(sink),
            GagState::Gagged { guard, sink } => Multiset::singleton(guard.backup).insert(sink),
        }
    }

    /// The outcome of a set-up that has ended.
    pub open spec fn outcome(self) -> Option<Result<(Claimed, RawFile), Failure>> {
        match self {
            GagState::Gagged { guard, sink } => Some(Ok((guard, sink))),
            GagState::Failed { error } => Some(Err(error)),
            _ => None,
        }
    }

    pub(crate) fn request(self) -> (request: Option<Request>)
        ensures
            request == self.pending(),
    {
        match self {
            GagState::Opening { .. } => Some(Request::OpenNull),
            GagState::Claiming { claim, .. } => claim.request(),
            GagState::ClosingSink { sink, .. } => Some(Request::Close { handle: sink }),
            GagState::Gagged { .. } | GagState::Failed { .. } => None,
        }
    }

    pub(crate) fn step(self, registry: &mut RedirectionRegistry, reply: Reply) -> (after: GagState)
        ensures
            (after, final(registry)@) == self.next(old(registry)@, reply),
    {
        match self {
            GagState::Opening { stream } => match reply {
                Reply::Handle(sink) => GagState::Claiming {
                    sink,
                    claim: ClaimState::Duplicating { stream, target: sink },
                },
                Reply::Failed(error) => GagState::Failed {
                    error: Failure::ResourceExhausted(error),
                },
                _ => self,
            },
            GagState::Claiming { sink, claim } => {
                let after = claim.step(registry, reply);
                match after {
                    ClaimState::Held { guard } => GagState::Gagged { guard, sink },
                    ClaimState::Failed { error } => GagState::ClosingSink {
                        sink,
                        error: error.into_failure(),
                    },
                    _ => GagState::Claiming { sink, claim: after },
                }
            },
            GagState::ClosingSink { error, .. } => match reply {
                Reply::Done | Reply::Failed(_) => GagState::Failed { error },
                _ => self,
            },
            GagState::Gagged { .. } | GagState::Failed { .. } => self,
        }
    }
}

/// A stream whose output is discarded, until it is released.
#[derive(Debug)]
pub struct Gag(Redirect<NullSink>);

/// A gag that is being set up.
#[derive(Debug)]
pub struct GagAttempt {
    state: GagState,
}

impl View for GagAttempt {
    type V = GagState;

    closed spec fn view(&self) -> GagState {
        self.state
    }
}

impl GagAttempt {
    #[verifier::type_invariant]
    spec fn sound(self) -> bool {
        self.state.wf()
    }

    /// The call to perform next, if the set-up has not ended.
    pub fn request(&self) -> (request: Option<Request>)
        ensures
            request == self@.pending(),
    {
        self.state.request()
    }

    /// Takes the outcome of the pending call.
    pub fn advance(self, registry: &mut RedirectionRegistry, reply: Reply) -> (after: GagAttempt)
        ensures
            (after@, final(registry)@) == self@.next(old(registry)@, reply),
            after@.wf(),
    {
        proof {
            use_type_invariant(&self);
            gag_ends(self.state, registry@, reply);
        }
        GagAttempt { state: self.state.step(registry, reply) }
    }

    /// The gag or the error, once the set-up has ended; while a call is
    /// pending, the set-up itself.
    pub fn finish(self) -> (outcome: Result<Result<Gag, Failure>, GagAttempt>)
        ensures
            match outcome {
                Ok(Ok(gag)) => self@ == (GagState::Gagged { guard: gag.guard(), sink: gag.sink() }),
                Ok(Err(error)) => self@ == (GagState::Failed { error }),
                Err(attempt) => attempt@ == self@ && self@.pending() is Some,
            },
    {
        proof {
            use_type_invariant(&self);
        }
        match self.state {
            GagState::Gagged { guard, sink } => Ok(
                Ok(Gag(Redirect::of(guard, NullSink { handle: sink }))),
            ),
            GagState::Failed { error } => Ok(Err(error)),
            _ => Err(self),
        }
    }
}

impl Gag {
    /// What the guard of the gag holds.
    pub closed spec fn guard(&self) -> Claimed {
        self.0.guard()
    }

    /// The handle of the null device.
    pub closed spec fn sink(&self) -> RawFile {
        self.0.file().raw_file()
    }

    /// Begins to discard standard output.
    pub fn stdout() -> (attempt: GagAttempt)
        ensures
            attempt@ == (GagState::Opening { stream: StreamId::Stdout }),
    {
        GagAttempt { state: GagState::Opening { stream: StreamId::Stdout } }
    }

    /// Begins to discard standard error.
    pub fn stderr() -> (attempt: GagAttempt)
        ensures
            attempt@ == (GagState::Opening { stream: StreamId::Stderr }),
    {
        GagAttempt { state: GagState::Opening { stream: StreamId::Stderr } }
    }

    pub fn stream(&self) -> (stream: StreamId)
        ensures
            stream == self.guard().stream,
    {
        self.0.stream()
    }

    /// Lifts the gag: the stream is given back, then the null device is
    /// closed.
    pub fn release(self) -> (retire: Retire)
        ensures
            retire@ == (RetireState { release: self.guard().release(), sink: Some(self.sink()) }),
    {
        self.0.retire()
    }
}

/// A set-up that has nothing pending has ended, with the stream gagged or
/// with an error.
pub proof fn gag_ends(state: GagState, claimed: Set<StreamId>, reply: Reply)
    requires
        state.wf(),
    ensures
        state.next(claimed, reply).0.wf(),
        state.pending() is None <==> state.outcome() is Some,
{
    if let GagState::Claiming { claim, .. } = state {
        crate::guard::claim_ends(claim, claimed, reply);
        crate::guard::claim_ends(claim.next(claimed, reply).0, claimed, reply);
    }
}

/// While a stream is claimed no gag of it gets the stream, whatever the
/// system replies, and none touches the flags: a second gag of one stream
/// fails.
pub proof fn claimed_stream_is_not_gagged(
    state: GagState,
    stream: StreamId,
    claimed: Set<StreamId>,
    replies: Seq<Reply>,
)
    requires
        claimed.contains(stream),
        state.barred(stream),
    ensures
        state.run(claimed, replies).0.barred(stream),
        state.run(claimed, replies).0.outcome() matches Some(outcome) ==> outcome is Err,
        state.run(claimed, replies).1 == claimed,
    decreases replies.len(),
{
    if replies.len() > 0 {
        let (after, flags) = state.next(claimed, replies[0]);
        if let GagState::Claiming { claim, .. } = state {
            crate::guard::claimed_stream_stays_barred(claim, stream, claimed, replies[0]);
        }
        claimed_stream_is_not_gagged(after, stream, claimed, replies.skip(1));
    }
}

/// No step of the set-up loses a handle or closes one twice. So a set-up
/// that has failed has closed all that it opened.
pub proof fn gag_keeps_account(state: GagState, claimed: Set<StreamId>, reply: Reply)
    requires
        state.wf(),
        state.pending() matches Some(request) && request.accepts(reply),
    ensures
        state.next(claimed, reply).0.holds() == settle(
            state.holds(),
            state.pending().unwrap(),
            reply,
        ),
{
    let after = state.next(claimed, reply).0;
    if let GagState::Claiming { claim, .. } = state {
        crate::guard::claim_keeps_account(claim, claimed, reply);
    }
    assert(after.holds() =~= settle(state.holds(), state.pending().unwrap(), reply));
}

/// Over a whole set-up no handle is lost: what the system has open in the
/// end is what the gag holds. So when a set-up has failed, the null device
/// and the backup have been closed again; and when it has succeeded, those
/// two are open and nothing else.
pub proof fn gag_leaves_nothing_behind(
    state: GagState,
    claimed: Set<StreamId>,
    replies: Seq<Reply>,
)
    requires
        state.wf(),
        state.answered_by(claimed, replies),
    ensures
        state.ledger(claimed, replies, state.holds()) == state.run(claimed, replies).0.holds(),
        state.run(claimed, replies).0 is Failed ==> state.ledger(claimed, replies, state.holds())
            == Multiset::<RawFile>::empty(),
    decreases replies.len(),
{
    if replies.len() > 0 {
        let (after, flags) = state.next(claimed, replies[0]);
        gag_ends(state, claimed, replies[0]);
        gag_keeps_account(state, claimed, replies[0]);
        gag_leaves_nothing_behind(after, flags, replies.skip(1));
    }
}

} // verus!
