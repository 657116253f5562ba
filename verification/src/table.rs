//! What the calls on streams and handles mean.
//!
//! The engine never sees what a stream points to. This module gives the
//! three calls that move streams and handles a meaning on a model of the
//! system's handle table, and states over it what a claim and a release
//! amount to: a claim makes the stream point to the target and keeps what it
//! pointed to before behind the backup, and a release puts that back and
//! leaves the table as it was before the claim.

use crate::guard::{answered, ClaimState, Claimed, ReleaseState};
use crate::os::{OsError, RawFile, Reply, Request};
use crate::stream::StreamId;
use vstd::prelude::*;

verus! {

/// The handle table of a process: what each stream and each open handle
/// points to. What is pointed to is named by a number; two names are equal
/// where the system would write to the same place.
pub struct Table {
    pub streams: Map<StreamId, int>,
    pub handles: Map<RawFile, int>,
}

impl Table {
    /// The table after `reply` has answered `request`. A handle that a close
    /// was asked for is gone, whatever the call said, as it is for the
    /// account of handles. A duplicate or an install that fails changes
    /// nothing, and so does a call that opens nothing a stream points to.
    pub open spec fn after(self, request: Request, reply: Reply) -> Table {
        match (request, reply) {
            (Request::Duplicate { stream }, Reply::Handle(handle)) => Table {
                streams: self.streams,
                handles: self.handles.insert(handle, self.streams[stream]),
            },
            (Request::Install { stream, target }, Reply::Done) => Table {
                streams: self.streams.insert(stream, self.handles[target]),
                handles: self.handles,
            },
            (Request::Close { handle }, Reply::Done | Reply::Failed(_)) => Table {
                streams: self.streams,
                handles: self.handles.remove(handle),
            },
            _ => self,
        }
    }

    /// The table after the call that is pending, if one is.
    pub open spec fn step(self, pending: Option<Request>, reply: Reply) -> Table {
        match pending {
            Some(request) => self.after(request, reply),
            None => self,
        }
    }
}

/// The table after a claim has taken `replies`, one after the other.
pub open spec fn claim_on(
    table: Table,
    state: ClaimState,
    claimed: Set<StreamId>,
    replies: Seq<Reply>,
) -> Table
    decreases replies.len(),
{
    if replies.len() == 0 {
        table
    } else {
        let (after, flags) = state.next(claimed, replies[0]);
        claim_on(table.step(state.pending(), replies[0]), after, flags, replies.skip(1))
    }
}

/// The table after a release has taken `replies`, one after the other.
pub open spec fn release_on(
    table: Table,
    state: ReleaseState,
    claimed: Set<StreamId>,
    replies: Seq<Reply>,
) -> Table
    decreases replies.len(),
{
    if replies.len() == 0 {
        table
    } else {
        let (after, flags) = state.next(claimed, replies[0]);
        release_on(table.step(state.pending(), replies[0]), after, flags, replies.skip(1))
    }
}

/// A claim that succeeds makes the stream point to what the target points
/// to, keeps what the stream pointed to before behind the backup, and
/// changes nothing else. The target is a handle that is open, and the
/// backup, being a duplicate, one that was not.
pub proof fn claim_redirects_stream(
    table: Table,
    claimed: Set<StreamId>,
    stream: StreamId,
    target: RawFile,
    backup: RawFile,
)
    requires
        !claimed.contains(stream),
        table.handles.dom().contains(target),
        !table.handles.dom().contains(backup),
    ensures
        ({
            let replies = seq![Reply::Handle(backup), Reply::Done];
            let end = claim_on(table, ClaimState::begin(stream, target), claimed, replies);
            &&& end.streams == table.streams.insert(stream, table.handles[target])
            &&& end.handles == table.handles.insert(backup, table.streams[stream])
        }),
{
    reveal_with_fuel(claim_on, 3);
    let replies = seq![Reply::Handle(backup), Reply::Done];
    assert(replies.skip(1)[0] == Reply::Done);
    assert(replies.skip(1).skip(1).len() == 0);
}

/// A release whose install succeeds makes the stream point to what the
/// backup points to, and the backup is gone whatever is said of its close.
pub proof fn release_restores_stream(
    table: Table,
    claimed: Set<StreamId>,
    guard: Claimed,
    closed: Reply,
)
    requires
        table.handles.dom().contains(guard.backup),
        answered(closed),
    ensures
        ({
            let replies = seq![Reply::Done, closed];
            let end = release_on(table, guard.release(), claimed, replies);
            &&& end.streams == table.streams.insert(guard.stream, table.handles[guard.backup])
            &&& end.handles == table.handles.remove(guard.backup)
        }),
{
    reveal_with_fuel(release_on, 3);
    let replies = seq![Reply::Done, closed];
    assert(replies.skip(1)[0] == closed);
    assert(replies.skip(1).skip(1).len() == 0);
}

/// A claim and the release of its guard, together, leave the table as it
/// was: after the release the stream points to what it pointed to before the
/// claim, and no handle is left open.
pub proof fn release_undoes_claim(
    table: Table,
    claimed: Set<StreamId>,
    stream: StreamId,
    target: RawFile,
    backup: RawFile,
    closed: Reply,
)
    requires
        !claimed.contains(stream),
        table.streams.dom().contains(stream),
        table.handles.dom().contains(target),
        !table.handles.dom().contains(backup),
        answered(closed),
    ensures
        ({
            let redirected = claim_on(
                table,
                ClaimState::begin(stream, target),
                claimed,
                seq![Reply::Handle(backup), Reply::Done],
            );
            let guard = Claimed { stream, backup };
            let end = release_on(
                redirected,
                guard.release(),
                claimed.insert(stream),
                seq![Reply::Done, closed],
            );
            &&& redirected.streams[stream] == table.handles[target]
            &&& end.streams[stream] == table.streams[stream]
            &&& end == table
        }),
{
    claim_redirects_stream(table, claimed, stream, target, backup);
    let redirected = claim_on(
        table,
        ClaimState::begin(stream, target),
        claimed,
        seq![Reply::Handle(backup), Reply::Done],
    );
    let guard = Claimed { stream, backup };
    release_restores_stream(redirected, claimed.insert(stream), guard, closed);
    let end = release_on(
        redirected,
        guard.release(),
        claimed.insert(stream),
        seq![Reply::Done, closed],
    );
    assert(end.streams =~= table.streams);
    assert(end.handles =~= table.handles);
}

/// A claim whose target cannot be installed leaves the table as it was,
/// where the system lets it put the backup back.
pub proof fn failed_claim_restores_table(
    table: Table,
    claimed: Set<StreamId>,
    stream: StreamId,
    target: RawFile,
    backup: RawFile,
    cause: OsError,
    closed: Reply,
)
    requires
        !claimed.contains(stream),
        table.streams.dom().contains(stream),
        !table.handles.dom().contains(backup),
        answered(closed),
    ensures
        claim_on(
            table,
            ClaimState::begin(stream, target),
            claimed,
            seq![Reply::Handle(backup), Reply::Failed(cause), Reply::Done, closed],
        ) == table,
{
    reveal_with_fuel(claim_on, 5);
    let replies = seq![Reply::Handle(backup), Reply::Failed(cause), Reply::Done, closed];
    assert(replies.skip(1)[0] == replies[1]);
    assert(replies.skip(1).skip(1)[0] == replies[2]);
    assert(replies.skip(1).skip(1).skip(1)[0] == replies[3]);
    assert(replies.skip(1).skip(1).skip(1).skip(1).len() == 0);
    let end = claim_on(table, ClaimState::begin(stream, target), claimed, replies);
    assert(end.streams =~= table.streams);
    assert(end.handles =~= table.handles);
}

/// A claim of a stream that is claimed leaves the table as it was, once its
/// backup is closed again: the redirection that is active stays in place.
pub proof fn refused_claim_changes_nothing(
    table: Table,
    claimed: Set<StreamId>,
    stream: StreamId,
    target: RawFile,
    backup: RawFile,
    closed: Reply,
)
    requires
        claimed.contains(stream),
        !table.handles.dom().contains(backup),
        answered(closed),
    ensures
        claim_on(
            table,
            ClaimState::begin(stream, target),
            claimed,
            seq![Reply::Handle(backup), closed],
        ) == table,
{
    reveal_with_fuel(claim_on, 3);
    let replies = seq![Reply::Handle(backup), closed];
    assert(replies.skip(1)[0] == closed);
    assert(replies.skip(1).skip(1).len() == 0);
    let end = claim_on(table, ClaimState::begin(stream, target), claimed, replies);
    assert(end.handles =~= table.handles);
}

} // verus!
