//! Claiming a stream and giving it back.
//!
//! A claim first duplicates the handle that is installed for the stream, so
//! that nothing shared is touched before the backup exists. It then raises the
//! stream's flag, and yields if the flag was up. Only then is the new target
//! installed. Where that fails, the claim is undone before the error is
//! surfaced: the backup is installed again as far as the system allows, the
//! backup is closed and the flag is lowered.

use crate::os::{settle, OsError, RawFile, Reply, Request};
use crate::registry::RedirectionRegistry;
use crate::stream::StreamId;
use vstd::multiset::Multiset;
use vstd::prelude::*;

verus! {

/// What is said of a stream that is claimed already.
pub const ALREADY_REDIRECTED: &'static str = "Redirect already exists.";

/// Why a stream could not be claimed.
#[derive(Clone, Copy, Debug, PartialEq, Eq, Structural)]
pub enum AcquireError {
    /// A redirection of the stream is active.
    AlreadyRedirected,
    /// The handle installed for the stream could not be duplicated.
    DuplicateFailed(OsError),
    /// The new target could not be installed.
    InstallFailed(OsError),
}

/// Why a redirection could not be set up, whatever had to be opened for it.
#[derive(Clone, Copy, Debug, PartialEq, Eq, Structural)]
pub enum Failure {
    /// A redirection of the stream is active.
    AlreadyRedirected,
    /// A handle could not be duplicated or opened, or a pipe not created.
    ResourceExhausted(OsError),
    /// The new target could not be installed.
    InstallFailed(OsError),
}

impl AcquireError {
    pub open spec fn failure(self) -> Failure {
        match self {
            AcquireError::AlreadyRedirected => Failure::AlreadyRedirected,
            AcquireError::DuplicateFailed(error) => Failure::ResourceExhausted(error),
            AcquireError::InstallFailed(error) => Failure::InstallFailed(error),
        }
    }

    pub fn into_failure(self) -> (failure: Failure)
        ensures
            failure == self.failure(),
    {
        match self {
            AcquireError::AlreadyRedirected => Failure::AlreadyRedirected,
            AcquireError::DuplicateFailed(error) => Failure::ResourceExhausted(error),
            AcquireError::InstallFailed(error) => Failure::InstallFailed(error),
        }
    }
}

/// What a guard holds: the stream it has claimed and the duplicate of the
/// handle that was installed for the stream before.
#[derive(Clone, Copy, Debug, PartialEq, Eq, Structural)]
pub struct Claimed {
    pub stream: StreamId,
    pub backup: RawFile,
}

impl Claimed {
    /// The state in which giving the stream back begins.
    pub open spec fn release(self) -> ReleaseState {
        ReleaseState::Restoring { stream: self.stream, backup: self.backup }
    }
}

/// The state of giving a stream back.
#[derive(Clone, Copy, Debug, PartialEq, Eq, Structural)]
pub enum ReleaseState {
    /// The backup is being installed again.
    Restoring { stream: StreamId, backup: RawFile },
    /// The backup is being closed.
    Closing { stream: StreamId, backup: RawFile },
    /// The stream is free.
    Released,
}

impl ReleaseState {
    pub open spec fn pending(self) -> Option<Request> {
        match self {
            ReleaseState::Restoring { stream, backup } => Some(
                Request::Install { stream, target: backup },
            ),
            ReleaseState::Closing { backup, .. } => Some(Request::Close { handle: backup }),
            ReleaseState::Released => None,
        }
    }

    /// The state and the claimed streams after `reply`. Neither call can stop
    /// the release: what the system says of them is not looked at. A reply
    /// that does not answer the pending request changes nothing.
    pub open spec fn next(self, claimed: Set<StreamId>, reply: Reply) -> (
        ReleaseState,
        Set<StreamId>,
    ) {
        match self {
            ReleaseState::Restoring { stream, backup } => match reply {
                Reply::Done | Reply::Failed(_) => (
                    ReleaseState::Closing { stream, backup },
                    claimed,
                ),
                _ => (self, claimed),
            },
            ReleaseState::Closing { stream, .. } => match reply {
                Reply::Done | Reply::Failed(_) => (ReleaseState::Released, claimed.remove(stream)),
                _ => (self, claimed),
            },
            ReleaseState::Released => (self, claimed),
        }
    }

    /// The state and the claimed streams after `replies`, one after the
    /// other.
    pub open spec fn run(self, claimed: Set<StreamId>, replies: Seq<Reply>) -> (
        ReleaseState,
        Set<StreamId>,
    )
        decreases replies.len(),
    {
        if replies.len() == 0 {
            (self, claimed)
        } else {
            let (after, flags) = self.next(claimed, replies[0]);
            after.run(flags, replies.skip(1))
        }
    }

    /// The handles that are open on behalf of the release.
    pub open spec fn holds(self) -> Multiset<RawFile> {
        match self {
            ReleaseState::Restoring { backup, .. } | ReleaseState::Closing { backup, .. } =>
                Multiset::singleton(backup),
            ReleaseState::Released => Multiset::empty(),
        }
    }

    pub(crate) fn request(self) -> (request: Option<Request>)
        ensures
            request == self.pending(),
    {
        match self {
            ReleaseState::Restoring { stream, backup } => Some(
                Request::Install { stream, target: backup },
            ),
            ReleaseState::Closing { backup, .. } => Some(Request::Close { handle: backup }),
            ReleaseState::Released => None,
        }
    }

    pub(crate) fn step(self, registry: &mut RedirectionRegistry, reply: Reply) -> (after:
        ReleaseState)
        ensures
            (after, final(registry)@) == self.next(old(registry)@, reply),
    {
        match self {
            ReleaseState::Restoring { stream, backup } => match reply {
                Reply::Done | Reply::Failed(_) => ReleaseState::Closing { stream, backup },
                _ => self,
            },
            ReleaseState::Closing { stream, .. } => match reply {
                Reply::Done | Reply::Failed(_) => {
                    registry.clear(stream);
                    ReleaseState::Released
                },
                _ => self,
            },
            ReleaseState::Released => self,
        }
    }
}

/// The state of a claim.
#[derive(Clone, Copy, Debug, PartialEq, Eq, Structural)]
pub enum ClaimState {
    /// The handle installed for the stream is being duplicated.
    Duplicating { stream: StreamId, target: RawFile },
    /// The flag was up: the backup is being closed.
    Yielding { backup: RawFile },
    /// The flag is raised: the target is being installed.
    Installing { stream: StreamId, target: RawFile, backup: RawFile },
    /// The target could not be installed: the stream is being given back.
    Unwinding { release: ReleaseState, cause: OsError },
    /// The stream is claimed.
    Held { guard: Claimed },
    /// The stream is not claimed.
    Failed { error: AcquireError },
}

impl ClaimState {
    pub open spec fn pending(self) -> Option<Request> {
        match self {
            ClaimState::Duplicating { stream, .. } => Some(Request::Duplicate { stream }),
            ClaimState::Yielding { backup } => Some(Request::Close { handle: backup }),
            ClaimState::Installing { stream, target, .. } => Some(
                Request::Install { stream, target },
            ),
            ClaimState::Unwinding { release, .. } => release.pending(),
            ClaimState::Held { .. } | ClaimState::Failed { .. } => None,
        }
    }

    /// The state and the claimed streams after `reply`. A reply that does not
    /// answer the pending request changes nothing.
    pub open spec fn next(self, claimed: Set<StreamId>, reply: Reply) -> (
        ClaimState,
        Set<StreamId>,
    ) {
        match self {
            ClaimState::Duplicating { stream, target } => match reply {
                Reply::Handle(backup) => if claimed.contains(stream) {
                    (ClaimState::Yielding { backup }, claimed)
                } else {
                    (ClaimState::Installing { stream, target, backup }, claimed.insert(stream))
                },
                Reply::Failed(error) => (
                    ClaimState::Failed { error: AcquireError::DuplicateFailed(error) },
                    claimed,
                ),
                _ => (self, claimed),
            },
            ClaimState::Yielding { .. } => match reply {
                Reply::Done | Reply::Failed(_) => (
                    ClaimState::Failed { error: AcquireError::AlreadyRedirected },
                    claimed,
                ),
                _ => (self, claimed),
            },
            ClaimState::Installing { stream, backup, .. } => match reply {
                Reply::Done => (ClaimState::Held { guard: Claimed { stream, backup } }, claimed),
                Reply::Failed(cause) => (
                    ClaimState::Unwinding {
                        release: ReleaseState::Restoring { stream, backup },
                        cause,
                    },
                    claimed,
                ),
                _ => (self, claimed),
            },
            ClaimState::Unwinding { release, cause } => {
                let (after, flags) = release.next(claimed, reply);
                if after is Released {
                    (ClaimState::Failed { error: AcquireError::InstallFailed(cause) }, flags)
                } else {
                    (ClaimState::Unwinding { release: after, cause }, flags)
                }
            },
            ClaimState::Held { .. } | ClaimState::Failed { .. } => (self, claimed),
        }
    }

    /// The state and the claimed streams after `replies`, one after the
    /// other.
    pub open spec fn run(self, claimed: Set<StreamId>, replies: Seq<Reply>) -> (
        ClaimState,
        Set<StreamId>,
    )
        decreases replies.len(),
    {
        if replies.len() == 0 {
            (self, claimed)
        } else {
            let (after, flags) = self.next(claimed, replies[0]);
            after.run(flags, replies.skip(1))
        }
    }

    /// The state in which a claim of `stream` for `target` begins.
    pub open spec fn begin(stream: StreamId, target: RawFile) -> ClaimState {
        ClaimState::Duplicating { stream, target }
    }

    /// Whether the claim cannot win `stream` any more, nor has touched its
    /// flag.
    pub open spec fn barred(self, stream: StreamId) -> bool {
        match self {
            ClaimState::Duplicating { stream: claiming, .. } => claiming == stream,
            ClaimState::Yielding { .. } => true,
            ClaimState::Failed { error } => error is AlreadyRedirected || error is DuplicateFailed,
            _ => false,
        }
    }

    /// The handles that are open on behalf of the claim. The target is the
    /// caller's and is not among them.
    pub open spec fn holds(self) -> Multiset<RawFile> {
        match self {
            ClaimState::Duplicating { .. } | ClaimState::Failed { .. } => Multiset::empty(),
            ClaimState::Yielding { backup } | ClaimState::Installing { backup, .. } =>
                Multiset::singleton(backup),
            ClaimState::Unwinding { release, .. } => release.holds(),
            ClaimState::Held { guard } => Multiset::singleton(guard.backup),
        }
    }

    /// What holds of every state that a claim reaches: while it unwinds, the
    /// release is not over.
    pub open spec fn wf(self) -> bool {
        self matches ClaimState::Unwinding { release, .. } ==> release !is Released
    }

    /// The outcome of a claim that has ended.
    pub open spec fn outcome(self) -> Option<Result<Claimed, AcquireError>> {
        match self {
            ClaimState::Held { guard } => Some(Ok(guard)),
            ClaimState::Failed { error } => Some(Err(error)),
            _ => None,
        }
    }

    pub(crate) fn request(self) -> (request: Option<Request>)
        ensures
            request == self.pending(),
    {
        match self {
            ClaimState::Duplicating { stream, .. } => Some(Request::Duplicate { stream }),
            ClaimState::Yielding { backup } => Some(Request::Close { handle: backup }),
            ClaimState::Installing { stream, target, .. } => Some(
                Request::Install { stream, target },
            ),
            ClaimState::Unwinding { release, .. } => release.request(),
            ClaimState::Held { .. } | ClaimState::Failed { .. } => None,
        }
    }

    pub(crate) fn step(self, registry: &mut RedirectionRegistry, reply: Reply) -> (after:
        ClaimState)
        ensures
            (after, final(registry)@) == self.next(old(registry)@, reply),
    {
        match self {
            ClaimState::Duplicating { stream, target } => match reply {
                Reply::Handle(backup) => {
                    if registry.test_and_set(stream) {
                        assert(registry@ =~= old(registry)@);
                        ClaimState::Yielding { backup }
                    } else {
                        ClaimState::Installing { stream, target, backup }
                    }
                },
                Reply::Failed(error) => ClaimState::Failed {
                    error: AcquireError::DuplicateFailed(error),
                },
                _ => self,
            },
            ClaimState::Yielding { .. } => match reply {
                Reply::Done | Reply::Failed(_) => ClaimState::Failed {
                    error: AcquireError::AlreadyRedirected,
                },
                _ => self,
            },
            ClaimState::Installing { stream, backup, .. } => match reply {
                Reply::Done => ClaimState::Held { guard: Claimed { stream, backup } },
                Reply::Failed(cause) => ClaimState::Unwinding {
                    release: ReleaseState::Restoring { stream, backup },
                    cause,
                },
                _ => self,
            },
            ClaimState::Unwinding { release, cause } => {
                let after = release.step(registry, reply);
                match after {
                    ReleaseState::Released => ClaimState::Failed {
                        error: AcquireError::InstallFailed(cause),
                    },
                    _ => ClaimState::Unwinding { release: after, cause },
                }
            },
            ClaimState::Held { .. } | ClaimState::Failed { .. } => self,
        }
    }
}

/// An active redirection of one stream. It is made by a claim that has
/// raised the stream's flag and installed the target, and by nothing else. It
/// is given up by [`StreamGuard::release`], once.
#[derive(Debug)]
pub struct StreamGuard {
    stream: StreamId,
    backup: RawFile,
}

impl View for StreamGuard {
    type V = Claimed;

    closed spec fn view(&self) -> Claimed {
        Claimed { stream: self.stream, backup: self.backup }
    }
}

impl StreamGuard {
    pub(crate) fn of(guard: Claimed) -> (made: StreamGuard)
        ensures
            made@ == guard,
    {
        StreamGuard { stream: guard.stream, backup: guard.backup }
    }

    pub fn stream(&self) -> (stream: StreamId)
        ensures
            stream == self@.stream,
    {
        self.stream
    }

    /// Begins to claim standard error if `is_stderr`, else standard output,
    /// for `file_fd`.
    pub fn make(is_stderr: bool, file_fd: RawFile) -> (claim: Claim)
        ensures
            claim@ == ClaimState::begin(
                if is_stderr {
                    StreamId::Stderr
                } else {
                    StreamId::Stdout
                },
                file_fd,
            ),
            claim@.wf(),
    {
        Claim::start(StreamId::from_flag(is_stderr), file_fd)
    }

    /// The duplicate of the handle that the stream had before.
    pub fn backup(&self) -> (backup: RawFile)
        ensures
            backup == self@.backup,
    {
        self.backup
    }

    pub(crate) fn release_state(self) -> (state: ReleaseState)
        ensures
            state == self@.release(),
    {
        ReleaseState::Restoring { stream: self.stream, backup: self.backup }
    }

    /// Begins to give the stream back.
    pub fn release(self) -> (release: Release)
        ensures
            release@ == self@.release(),
    {
        Release { state: self.release_state() }
    }
}

/// The guard, named as the inner part of a redirection.
pub type RedirectInner = StreamGuard;

/// A claim in progress.
#[derive(Debug)]
pub struct Claim {
    state: ClaimState,
}

impl View for Claim {
    type V = ClaimState;

    closed spec fn view(&self) -> ClaimState {
        self.state
    }
}

impl Claim {
    #[verifier::type_invariant]
    spec fn sound(self) -> bool {
        self.state.wf()
    }

    /// Begins to claim `stream` for `target`, a handle that is open and stays
    /// the caller's.
    pub fn start(stream: StreamId, target: RawFile) -> (claim: Claim)
        ensures
            claim@ == ClaimState::begin(stream, target),
            claim@.wf(),
    {
        Claim { state: ClaimState::Duplicating { stream, target } }
    }

    /// The call to perform next, if the claim has not ended.
    pub fn request(&self) -> (request: Option<Request>)
        ensures
            request == self@.pending(),
    {
        self.state.request()
    }

    /// Takes the outcome of the pending call.
    pub fn advance(self, registry: &mut RedirectionRegistry, reply: Reply) -> (after: Claim)
        ensures
            (after@, final(registry)@) == self@.next(old(registry)@, reply),
            after@.wf(),
    {
        proof {
            use_type_invariant(&self);
            claim_ends(self.state, registry@, reply);
        }
        Claim { state: self.state.step(registry, reply) }
    }

    /// The guard or the error of a claim that has ended; while a call is
    /// pending, the claim itself.
    pub fn finish(self) -> (outcome: Result<Result<StreamGuard, AcquireError>, Claim>)
        ensures
            match outcome {
                Ok(Ok(guard)) => self@ == (ClaimState::Held { guard: guard@ }),
                Ok(Err(error)) => self@ == (ClaimState::Failed { error }),
                Err(claim) => claim@ == self@ && self@.pending() is Some,
            },
    {
        proof {
            use_type_invariant(&self);
        }
        match self.state {
            ClaimState::Held { guard } => Ok(Ok(StreamGuard::of(guard))),
            ClaimState::Failed { error } => Ok(Err(error)),
            _ => Err(self),
        }
    }
}

/// A release in progress.
#[derive(Debug)]
pub struct Release {
    state: ReleaseState,
}

impl View for Release {
    type V = ReleaseState;

    closed spec fn view(&self) -> ReleaseState {
        self.state
    }
}

impl Release {
    /// The call to perform next, if the stream is not free yet.
    pub fn request(&self) -> (request: Option<Request>)
        ensures
            request == self@.pending(),
    {
        self.state.request()
    }

    /// Takes the outcome of the pending call.
    pub fn advance(self, registry: &mut RedirectionRegistry, reply: Reply) -> (after: Release)
        ensures
            (after@, final(registry)@) == self@.next(old(registry)@, reply),
    {
        Release { state: self.state.step(registry, reply) }
    }

    pub fn is_released(&self) -> (released: bool)
        ensures
            released == (self@ is Released),
    {
        match self.state {
            ReleaseState::Released => true,
            _ => false,
        }
    }
}

/// No step of a release loses a handle or closes one twice: what is open on
/// its behalf afterwards is what was open before, settled by the call.
pub proof fn release_keeps_account(state: ReleaseState, claimed: Set<StreamId>, reply: Reply)
    requires
        state.pending() matches Some(request) && request.accepts(reply),
    ensures
        state.next(claimed, reply).0.holds() == settle(
            state.holds(),
            state.pending().unwrap(),
            reply,
        ),
{
    let after = state.next(claimed, reply).0;
    assert(after.holds() =~= settle(state.holds(), state.pending().unwrap(), reply));
}

/// A claim that has nothing pending has ended, with a guard or with an error.
pub proof fn claim_ends(state: ClaimState, claimed: Set<StreamId>, reply: Reply)
    requires
        state.wf(),
    ensures
        state.next(claimed, reply).0.wf(),
        state.pending() is None <==> state.outcome() is Some,
{
}

/// No step of a claim loses a handle or closes one twice.
pub proof fn claim_keeps_account(state: ClaimState, claimed: Set<StreamId>, reply: Reply)
    requires
        state.pending() matches Some(request) && request.accepts(reply),
    ensures
        state.next(claimed, reply).0.holds() == settle(
            state.holds(),
            state.pending().unwrap(),
            reply,
        ),
{
    let after = state.next(claimed, reply).0;
    if let ClaimState::Unwinding { release, .. } = state {
        release_keeps_account(release, claimed, reply);
    }
    assert(after.holds() =~= settle(state.holds(), state.pending().unwrap(), reply));
}

/// Whether the system says that a call has ended, well or not.
pub open spec fn answered(reply: Reply) -> bool {
    reply is Done || reply is Failed
}

/// While a stream is claimed, no step of another claim of it gets the
/// stream or touches the flags.
pub proof fn claimed_stream_stays_barred(
    state: ClaimState,
    stream: StreamId,
    claimed: Set<StreamId>,
    reply: Reply,
)
    requires
        claimed.contains(stream),
        state.barred(stream),
    ensures
        state.next(claimed, reply).0.barred(stream),
        state.next(claimed, reply).1 == claimed,
{
}

/// While a stream is claimed no other claim of it gets the stream, whatever
/// the system replies, and none touches the flags.
pub proof fn claimed_stream_is_barred(
    state: ClaimState,
    stream: StreamId,
    claimed: Set<StreamId>,
    replies: Seq<Reply>,
)
    requires
        claimed.contains(stream),
        state.barred(stream),
    ensures
        state.run(claimed, replies).0.barred(stream),
        state.run(claimed, replies).1 == claimed,
    decreases replies.len(),
{
    if replies.len() > 0 {
        let (after, flags) = state.next(claimed, replies[0]);
        claimed_stream_is_barred(after, stream, claimed, replies.skip(1));
    }
}

/// A claim that cannot make its backup fails before it has touched anything:
/// no flag has changed and nothing is open.
pub proof fn failed_duplicate_changes_nothing(
    claimed: Set<StreamId>,
    stream: StreamId,
    target: RawFile,
    cause: OsError,
)
    ensures
        ClaimState::begin(stream, target).next(claimed, Reply::Failed(cause)) == (
            ClaimState::Failed { error: AcquireError::DuplicateFailed(cause) },
            claimed,
        ),
{
}

/// A second claim of a stream that is claimed fails as already redirected,
/// once its backup has been made and closed again: the backup is not leaked
/// and no flag has changed.
pub proof fn second_claim_fails(
    claimed: Set<StreamId>,
    stream: StreamId,
    target: RawFile,
    backup: RawFile,
    closed: Reply,
)
    requires
        claimed.contains(stream),
        answered(closed),
    ensures
        ClaimState::begin(stream, target).next(claimed, Reply::Handle(backup)).0.pending() == Some(
            Request::Close { handle: backup },
        ),
        ClaimState::begin(stream, target).run(claimed, seq![Reply::Handle(backup), closed]) == (
            ClaimState::Failed { error: AcquireError::AlreadyRedirected },
            claimed,
        ),
{
    reveal_with_fuel(ClaimState::run, 3);
    let replies = seq![Reply::Handle(backup), closed];
    assert(replies.skip(1)[0] == closed);
    assert(replies.skip(1).skip(1).len() == 0);
}

/// A stream that is not claimed can be claimed, whatever holds of the other
/// stream: where the system makes the backup and installs the target, the
/// claim ends with a guard for the stream and its flag is up.
pub proof fn free_stream_can_be_claimed(
    claimed: Set<StreamId>,
    stream: StreamId,
    target: RawFile,
    backup: RawFile,
)
    requires
        !claimed.contains(stream),
    ensures
        ClaimState::begin(stream, target).pending() == Some(Request::Duplicate { stream }),
        ClaimState::begin(stream, target).next(claimed, Reply::Handle(backup)).0.pending() == Some(
            Request::Install { stream, target },
        ),
        ClaimState::begin(stream, target).run(claimed, seq![Reply::Handle(backup), Reply::Done])
            == (ClaimState::Held { guard: Claimed { stream, backup } }, claimed.insert(stream)),
        claimed.insert(stream).contains(stream.other()) == claimed.contains(stream.other()),
{
    reveal_with_fuel(ClaimState::run, 3);
    let replies = seq![Reply::Handle(backup), Reply::Done];
    assert(replies.skip(1)[0] == Reply::Done);
    assert(replies.skip(1).skip(1).len() == 0);
}

/// A release cannot fail: whatever the system says of its two calls, the
/// backup is installed again, then closed, and the flag of the stream is
/// down.
pub proof fn release_frees_stream(
    claimed: Set<StreamId>,
    guard: Claimed,
    restored: Reply,
    closed: Reply,
)
    requires
        answered(restored),
        answered(closed),
    ensures
        guard.release().pending() == Some(
            Request::Install { stream: guard.stream, target: guard.backup },
        ),
        guard.release().next(claimed, restored).0.pending() == Some(
            Request::Close { handle: guard.backup },
        ),
        guard.release().run(claimed, seq![restored, closed]) == (
            ReleaseState::Released,
            claimed.remove(guard.stream),
        ),
{
    reveal_with_fuel(ReleaseState::run, 3);
    let replies = seq![restored, closed];
    assert(replies.skip(1)[0] == closed);
    assert(replies.skip(1).skip(1).len() == 0);
}

/// After the guard of a stream has been released, the stream can be claimed
/// again.
pub proof fn released_stream_can_be_claimed(
    claimed: Set<StreamId>,
    guard: Claimed,
    restored: Reply,
    closed: Reply,
    target: RawFile,
    backup: RawFile,
)
    requires
        answered(restored),
        answered(closed),
    ensures
        ({
            let free = guard.release().run(claimed, seq![restored, closed]).1;
            ClaimState::begin(guard.stream, target).run(
                free,
                seq![Reply::Handle(backup), Reply::Done],
            ) == (
                ClaimState::Held { guard: Claimed { stream: guard.stream, backup } },
                claimed.insert(guard.stream),
            )
        }),
{
    release_frees_stream(claimed, guard, restored, closed);
    let free = claimed.remove(guard.stream);
    free_stream_can_be_claimed(free, guard.stream, target, backup);
    assert(free.insert(guard.stream) =~= claimed.insert(guard.stream));
}

/// Where the target cannot be installed after the flag was raised, the claim
/// is undone before it fails: the backup is installed again, the backup is
/// closed, so that no handle is left open, and the flags are as they were.
/// The stream can be claimed again at once.
pub proof fn failed_install_is_undone(
    claimed: Set<StreamId>,
    stream: StreamId,
    target: RawFile,
    backup: RawFile,
    cause: OsError,
    restored: Reply,
    closed: Reply,
    again: RawFile,
)
    requires
        !claimed.contains(stream),
        answered(restored),
        answered(closed),
    ensures
        ({
            let replies = seq![Reply::Handle(backup), Reply::Failed(cause), restored, closed];
            let won = ClaimState::begin(stream, target).next(claimed, replies[0]);
            let lost = won.0.next(won.1, replies[1]);
            let back = lost.0.next(lost.1, replies[2]);
            let end = ClaimState::begin(stream, target).run(claimed, replies);
            &&& won.1.contains(stream)
            &&& won.0.pending() == Some(Request::Install { stream, target })
            &&& lost.0.pending() == Some(Request::Install { stream, target: backup })
            &&& back.0.pending() == Some(Request::Close { handle: backup })
            &&& end == (ClaimState::Failed { error: AcquireError::InstallFailed(cause) }, claimed)
            &&& end.0.holds() == Multiset::<RawFile>::empty()
            &&& ClaimState::begin(stream, target).run(
                end.1,
                seq![Reply::Handle(again), Reply::Done],
            ).0 == (ClaimState::Held { guard: Claimed { stream, backup: again } })
        }),
{
    reveal_with_fuel(ClaimState::run, 5);
    let replies = seq![Reply::Handle(backup), Reply::Failed(cause), restored, closed];
    assert(replies.skip(1)[0] == replies[1]);
    assert(replies.skip(1).skip(1)[0] == replies[2]);
    assert(replies.skip(1).skip(1).skip(1)[0] == replies[3]);
    assert(replies.skip(1).skip(1).skip(1).skip(1).len() == 0);
    assert(claimed.insert(stream).remove(stream) =~= claimed);
    free_stream_can_be_claimed(claimed, stream, target, again);
}

} // verus!
