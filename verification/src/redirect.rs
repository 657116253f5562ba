//! Redirecting a stream into a sink of the caller.

use crate::guard::{
    answered, AcquireError, ClaimState, Claimed, Release, ReleaseState, StreamGuard,
};
use crate::os::{settle, RawFile, Reply, Request};
use crate::registry::RedirectionRegistry;
use crate::stream::StreamId;
use vstd::multiset::Multiset;
use vstd::prelude::*;

verus! {

/// A sink that has a raw descriptor or handle.
pub trait AsRawFile {
    spec fn raw_file(&self) -> RawFile;

    fn as_raw_file(&self) -> (raw: RawFile)
        ensures
            raw == self.raw_file(),
    ;
}

/// A redirection that was refused. It hands the sink back.
#[derive(Debug)]
pub struct RedirectError<F> {
    pub error: AcquireError,
    pub file: F,
}

impl<F> From<RedirectError<F>> for AcquireError {
    /// The error alone.
    fn from(err: RedirectError<F>) -> (error: AcquireError) {
        err.error
    }
}

impl<F> vstd::std_specs::convert::FromSpecImpl<RedirectError<F>> for AcquireError {
    open spec fn obeys_from_spec() -> bool {
        true
    }

    open spec fn from_spec(err: RedirectError<F>) -> AcquireError {
        err.error
    }
}

/// A stream that is redirected into `file`, until it is released.
#[derive(Debug)]
pub struct Redirect<F> {
    guard: StreamGuard,
    file: F,
}

/// A redirection in progress.
#[derive(Debug)]
pub struct Redirecting<F> {
    claim: ClaimState,
    file: F,
}

impl<F> Redirect<F> {
    pub(crate) fn of(guard: Claimed, file: F) -> (redirect: Redirect<F>)
        ensures
            redirect.guard() == guard,
            redirect.file() == file,
    {
        Redirect { guard: StreamGuard::of(guard), file }
    }

    /// What the guard of the redirection holds.
    pub closed spec fn guard(&self) -> Claimed {
        self.guard@
    }

    /// The sink.
    pub closed spec fn file(&self) -> F {
        self.file
    }

    pub fn stream(&self) -> (stream: StreamId)
        ensures
            stream == self.guard().stream,
    {
        self.guard.stream()
    }

    pub fn get_ref(&self) -> (file: &F)
        ensures
            *file == self.file(),
    {
        &self.file
    }

    /// Ends the redirection and hands the sink back, with the release that
    /// gives the stream back.
    pub fn into_inner(self) -> (parts: (F, Release))
        ensures
            parts.0 == self.file(),
            parts.1@ == self.guard().release(),
    {
        (self.file, self.guard.release())
    }
}

impl<F: AsRawFile> Redirect<F> {
    /// Ends the redirection of a sink that was opened for it: the stream is
    /// given back, then the sink is closed.
    pub(crate) fn retire(self) -> (retire: Retire)
        ensures
            retire@ == (RetireState {
                release: self.guard().release(),
                sink: Some(self.file().raw_file()),
            }),
    {
        let sink = self.file.as_raw_file();
        Retire { state: RetireState { release: self.guard.release_state(), sink: Some(sink) } }
    }

    fn make(stream: StreamId, file: F) -> (attempt: Redirecting<F>)
        ensures
            attempt.file() == file,
            attempt.claim() == ClaimState::begin(stream, file.raw_file()),
    {
        let target = file.as_raw_file();
        Redirecting { claim: ClaimState::Duplicating { stream, target }, file }
    }

    /// Begins to redirect standard output into `file`.
    pub fn stdout(file: F) -> (attempt: Redirecting<F>)
        ensures
            attempt.file() == file,
            attempt.claim() == ClaimState::begin(StreamId::Stdout, file.raw_file()),
    {
        Redirect::make(StreamId::Stdout, file)
    }

    /// Begins to redirect standard error into `file`.
    pub fn stderr(file: F) -> (attempt: Redirecting<F>)
        ensures
            attempt.file() == file,
            attempt.claim() == ClaimState::begin(StreamId::Stderr, file.raw_file()),
    {
        Redirect::make(StreamId::Stderr, file)
    }
}

impl<F> Redirecting<F> {
    #[verifier::type_invariant]
    spec fn sound(self) -> bool {
        self.claim.wf()
    }

    /// The claim that the redirection rests on.
    pub closed spec fn claim(&self) -> ClaimState {
        self.claim
    }

    /// The sink.
    pub closed spec fn file(&self) -> F {
        self.file
    }

    /// The call to perform next, if the redirection has not ended.
    pub fn request(&self) -> (request: Option<Request>)
        ensures
            request == self.claim().pending(),
    {
        self.claim.request()
    }

    /// Takes the outcome of the pending call.
    pub fn advance(self, registry: &mut RedirectionRegistry, reply: Reply) -> (after: Redirecting<
        F,
    >)
        ensures
            after.file() == self.file(),
            (after.claim(), final(registry)@) == self.claim().next(old(registry)@, reply),
            after.claim().wf(),
    {
        proof {
            use_type_invariant(&self);
            crate::guard::claim_ends(self.claim, registry@, reply);
        }
        Redirecting { claim: self.claim.step(registry, reply), file: self.file }
    }

    /// The redirection, or the error with the sink, once the claim has ended;
    /// while a call is pending, the attempt itself.
    pub fn finish(self) -> (outcome: Result<Result<Redirect<F>, RedirectError<F>>, Redirecting<F>>)
        ensures
            match outcome {
                Ok(Ok(redirect)) => self.claim() == (ClaimState::Held { guard: redirect.guard() })
                    && redirect.file() == self.file(),
                Ok(Err(refused)) => self.claim() == (ClaimState::Failed { error: refused.error })
                    && refused.file == self.file(),
                Err(attempt) => attempt.claim() == self.claim() && attempt.file() == self.file()
                    && self.claim().pending() is Some,
            },
    {
        proof {
            use_type_invariant(&self);
        }
        match self.claim {
            ClaimState::Held { guard } => Ok(
                Ok(Redirect { guard: StreamGuard::of(guard), file: self.file }),
            ),
            ClaimState::Failed { error } => Ok(Err(RedirectError { error, file: self.file })),
            _ => Err(self),
        }
    }
}

/// The state of ending a redirection whose sink was opened for it.
#[derive(Clone, Copy, Debug, PartialEq, Eq, Structural)]
pub struct RetireState {
    /// Giving the stream back.
    pub release: ReleaseState,
    /// The sink, until it is closed.
    pub sink: Option<RawFile>,
}

impl RetireState {
    /// The stream is given back first; the sink is closed after that.
    pub open spec fn pending(self) -> Option<Request> {
        match self.release.pending() {
            Some(request) => Some(request),
            None => match self.sink {
                Some(handle) => Some(Request::Close { handle }),
                None => None,
            },
        }
    }

    /// The state and the claimed streams after `reply`. What the system says
    /// of closing the sink is not looked at. A reply that does not answer the
    /// pending request changes nothing.
    pub open spec fn next(self, claimed: Set<StreamId>, reply: Reply) -> (
        RetireState,
        Set<StreamId>,
    ) {
        if self.release.pending() is Some {
            let (release, flags) = self.release.next(claimed, reply);
            (RetireState { release, sink: self.sink }, flags)
        } else {
            match reply {
                Reply::Done | Reply::Failed(_) => (
                    RetireState { release: self.release, sink: None },
                    claimed,
                ),
                _ => (self, claimed),
            }
        }
    }

    /// The state and the claimed streams after `replies`, one after the
    /// other.
    pub open spec fn run(self, claimed: Set<StreamId>, replies: Seq<Reply>) -> (
        RetireState,
        Set<StreamId>,
    )
        decreases replies.len(),
    {
        if replies.len() == 0 {
            (self, claimed)
        } else {
            let (after, flags) = self.next(claimed, replies[0]);
            after.run(flags, replies.skip(1))
        }
    }

    /// The handles that are open on behalf of the redirection.
    pub open spec fn holds(self) -> Multiset<RawFile> {
        match self.sink {
            Some(handle) => self.release.holds().insert(handle),
            None => self.release.holds(),
        }
    }

    pub(crate) fn request(self) -> (request: Option<Request>)
        ensures
            request == self.pending(),
    {
        match self.release.request() {
            Some(request) => Some(request),
            None => match self.sink {
                Some(handle) => Some(Request::Close { handle }),
                None => None,
            },
        }
    }

    pub(crate) fn step(self, registry: &mut RedirectionRegistry, reply: Reply) -> (after:
        RetireState)
        ensures
            (after, final(registry)@) == self.next(old(registry)@, reply),
    {
        if self.release.request().is_some() {
            RetireState { release: self.release.step(registry, reply), sink: self.sink }
        } else {
            match reply {
                Reply::Done | Reply::Failed(_) => RetireState { release: self.release, sink: None },
                _ => self,
            }
        }
    }
}

/// The end of a redirection, in progress.
#[derive(Debug)]
pub struct Retire {
    state: RetireState,
}

impl View for Retire {
    type V = RetireState;

    closed spec fn view(&self) -> RetireState {
        self.state
    }
}

impl Retire {
    pub(crate) fn state(&self) -> (state: RetireState)
        ensures
            state == self@,
    {
        self.state
    }

    /// The call to perform next, if anything is left to do.
    pub fn request(&self) -> (request: Option<Request>)
        ensures
            request == self@.pending(),
    {
        self.state.request()
    }

    /// Takes the outcome of the pending call.
    pub fn advance(self, registry: &mut RedirectionRegistry, reply: Reply) -> (after: Retire)
        ensures
            (after@, final(registry)@) == self@.next(old(registry)@, reply),
    {
        Retire { state: self.state.step(registry, reply) }
    }
}

/// No step of ending a redirection loses a handle or closes one twice, and
/// when nothing is pending nothing is open.
pub proof fn retire_keeps_account(state: RetireState, claimed: Set<StreamId>, reply: Reply)
    requires
        state.pending() matches Some(request) && request.accepts(reply),
    ensures
        state.next(claimed, reply).0.holds() == settle(
            state.holds(),
            state.pending().unwrap(),
            reply,
        ),
{
    let after = state.next(claimed, reply).0;
    assert(after.holds() =~= settle(state.holds(), state.pending().unwrap(), reply));
}

/// Ending a redirection cannot fail: whatever the system says of the three
/// calls, the backup is installed again, the backup is closed, the flag of
/// the stream goes down, and the sink is closed last. After that nothing is
/// pending and nothing is open.
pub proof fn retire_frees_stream(
    claimed: Set<StreamId>,
    guard: Claimed,
    sink: RawFile,
    restored: Reply,
    closed: Reply,
    shut: Reply,
)
    requires
        answered(restored),
        answered(closed),
        answered(shut),
    ensures
        ({
            let start = RetireState { release: guard.release(), sink: Some(sink) };
            let first = start.next(claimed, restored);
            let second = first.0.next(first.1, closed);
            let end = start.run(claimed, seq![restored, closed, shut]);
            &&& start.pending() == Some(
                Request::Install { stream: guard.stream, target: guard.backup },
            )
            &&& first.0.pending() == Some(Request::Close { handle: guard.backup })
            &&& first.1 == claimed
            &&& second.0.pending() == Some(Request::Close { handle: sink })
            &&& second.1 == claimed.remove(guard.stream)
            &&& end.0.pending() is None
            &&& end.0.holds() == Multiset::<RawFile>::empty()
            &&& end.1 == claimed.remove(guard.stream)
        }),
{
    reveal_with_fuel(RetireState::run, 4);
    let replies = seq![restored, closed, shut];
    assert(replies.skip(1)[0] == closed);
    assert(replies.skip(1).skip(1)[0] == shut);
    assert(replies.skip(1).skip(1).skip(1).len() == 0);
}

} // verus!
