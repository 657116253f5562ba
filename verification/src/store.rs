//! Transient storage with a write side and a read side.
//!
//! There are three ways to make such a pair, tried in a fixed order. The
//! first is an unnamed file on a memory-backed filesystem, opened a second
//! time so that each side has a cursor of its own. The second is a file in a
//! fresh temporary directory, which is removed as soon as both sides are
//! open. The third is a pipe. A platform starts at the first way that it
//! has.
//!
//! The call that begins a way decides whether the way is to be had on this
//! system. Where it fails with one of the codes that
//! [`Strategy::unsupported`] lists for the way, the next way is tried; any
//! other failure of it is an error of the system and is returned as it is.
//! A way that has begun and cannot go on, because a side cannot be opened,
//! gives up what it had opened and hands over to the next way. The pair is
//! made whole or not at all.

use crate::os::{settle, OsError, RawFile, Reply, Request};
use crate::redirect::AsRawFile;
use vstd::multiset::Multiset;
use vstd::prelude::*;

verus! {

/// The directory of the memory-backed filesystem.
pub const MEMORY_DIRECTORY: &'static str = "/dev/shm";

/// The mode of the unnamed file: its owner may read and write it.
pub const MEMORY_FILE_MODE: u32 = 0o600;

/// The prefix of the temporary directory's name.
pub const DIRECTORY_PREFIX: &'static str = "rust-gag";

/// The name of the one file in the temporary directory.
pub const FILE_NAME: &'static str = "gag";

/// The decimal digits of `n`, as ASCII bytes.
pub open spec fn digits(n: nat) -> Seq<u8>
    decreases n,
{
    if n < 10 {
        seq![(48 + n) as u8]
    } else {
        digits(n / 10).push((48 + n % 10) as u8)
    }
}

/// `n` in decimal, as ASCII bytes, with a minus sign where it is negative.
pub open spec fn decimal(n: int) -> Seq<u8> {
    if n < 0 {
        seq![45u8] + digits((-n) as nat)
    } else {
        digits(n as nat)
    }
}

/// The path under which a process on Linux sees its own descriptor
/// `handle`, as ASCII bytes: `/proc/self/fd/` and the number.
pub open spec fn path_of_descriptor(handle: RawFile) -> Seq<u8> {
    seq![47u8, 112, 114, 111, 99, 47, 115, 101, 108, 102, 47, 102, 100, 47] + decimal(
        handle as int,
    )
}

fn push_digits(path: &mut Vec<u8>, n: u64)
    ensures
        final(path)@ == old(path)@ + digits(n as nat),
    decreases n,
{
    if n >= 10 {
        push_digits(path, n / 10);
    }
    let digit: u8 = (n % 10) as u8;
    path.push(48 + digit);
    assert(path@ =~= old(path)@ + digits(n as nat));
}

/// The path by which the file behind `handle` is opened once more.
pub fn descriptor_path(handle: RawFile) -> (path: Vec<u8>)
    ensures
        path@ == path_of_descriptor(handle),
{
    let mut path: Vec<u8> = vec![47u8, 112, 114, 111, 99, 47, 115, 101, 108, 102, 47, 102, 100, 47];
    if handle < 0 {
        path.push(45);
        let below: u64 = (-(handle + 1)) as u64;
        push_digits(&mut path, below + 1);
    } else {
        push_digits(&mut path, handle as u64);
    }
    assert(path@ =~= path_of_descriptor(handle));
    path
}

/// A way to make the storage.
#[derive(Clone, Copy, Debug, PartialEq, Eq, Structural)]
pub enum Strategy {
    MemoryFile,
    TempDirectory,
    Pipe,
}

impl Strategy {
    /// Whether a failure with `error` of the call that begins this way says
    /// that the way is not to be had on this system, and not that something
    /// went wrong. Code 0 is what a driver gives that has no such call; 38 is
    /// "function not implemented" and 95 "operation not supported". For the
    /// unnamed file, 2 ("no such file or directory") and 21 ("is a
    /// directory") are what a kernel without unnamed files, or a system
    /// without the memory-backed filesystem, answers. For the temporary
    /// directory, 2 and 20 ("not a directory") say that the system has no
    /// place for temporary files.
    pub open spec fn unsupported(self, error: OsError) -> bool {
        match self {
            Strategy::MemoryFile => error.code == 0 || error.code == 2 || error.code == 21
                || error.code == 38 || error.code == 95,
            Strategy::TempDirectory => error.code == 0 || error.code == 2 || error.code == 20
                || error.code == 38 || error.code == 95,
            Strategy::Pipe => error.code == 0 || error.code == 38 || error.code == 95,
        }
    }

    /// The way that is tried when this one is not to be had.
    pub open spec fn fallback(self) -> Option<Strategy> {
        match self {
            Strategy::MemoryFile => Some(Strategy::TempDirectory),
            Strategy::TempDirectory => Some(Strategy::Pipe),
            Strategy::Pipe => None,
        }
    }

    /// Whether a read of zero bytes may mean that nothing has arrived yet,
    /// as it does on a pipe whose write end is open.
    pub open spec fn polls(self) -> bool {
        self == Strategy::Pipe
    }

    pub fn is_unsupported(self, error: OsError) -> (lacking: bool)
        ensures
            lacking == self.unsupported(error),
    {
        let code: i32 = error.code;
        match self {
            Strategy::MemoryFile => code == 0 || code == 2 || code == 21 || code == 38 || code == 95,
            Strategy::TempDirectory => code == 0 || code == 2 || code == 20 || code == 38
                || code == 95,
            Strategy::Pipe => code == 0 || code == 38 || code == 95,
        }
    }

    pub fn is_pipe(self) -> (pipe: bool)
        ensures
            pipe == self.polls(),
    {
        match self {
            Strategy::Pipe => true,
            _ => false,
        }
    }
}

/// What kind of system the process runs on.
#[derive(Clone, Copy, Debug, PartialEq, Eq, Structural)]
pub enum Platform {
    /// Linux, which has memory-backed filesystems and descriptor paths.
    Linux,
    /// Another POSIX system.
    Unix,
    /// A system with a handle table.
    Windows,
}

impl Platform {
    /// The first way that the platform has.
    pub open spec fn first(self) -> Strategy {
        match self {
            Platform::Linux => Strategy::MemoryFile,
            Platform::Unix => Strategy::TempDirectory,
            Platform::Windows => Strategy::Pipe,
        }
    }

    pub fn first_strategy(self) -> (strategy: Strategy)
        ensures
            strategy == self.first(),
    {
        match self {
            Platform::Linux => Strategy::MemoryFile,
            Platform::Unix => Strategy::TempDirectory,
            Platform::Windows => Strategy::Pipe,
        }
    }
}

/// The two handles of a store and the way it was made.
#[derive(Clone, Copy, Debug, PartialEq, Eq, Structural)]
pub struct Store {
    pub write: RawFile,
    pub read: RawFile,
    pub strategy: Strategy,
}

/// The state of making a store.
#[derive(Clone, Copy, Debug, PartialEq, Eq, Structural)]
pub enum AllocationState {
    /// The unnamed file is being opened.
    OpeningMemoryFile,
    /// The unnamed file is being opened a second time.
    Reopening { write: RawFile },
    /// The second opening failed: the first handle is being closed.
    DiscardingMemoryFile { write: RawFile },
    /// The temporary directory is being created.
    CreatingDirectory,
    /// The file in the directory is being created.
    CreatingFile,
    /// The file in the directory is being opened for reading.
    OpeningFile { write: RawFile },
    /// Both sides are open: the directory is being removed.
    Unlinking { write: RawFile, read: RawFile },
    /// The file could not be opened for reading: the writer is being closed.
    DiscardingFile { write: RawFile },
    /// The file strategy failed: the directory is being removed.
    DiscardingDirectory,
    /// The pipe is being created.
    CreatingPipe,
    /// The store is made.
    Ready { store: Store },
    /// No way was left.
    Failed { error: OsError },
}

impl AllocationState {
    /// The state in which `strategy` begins.
    pub open spec fn begin(strategy: Strategy) -> AllocationState {
        match strategy {
            Strategy::MemoryFile => AllocationState::OpeningMemoryFile,
            Strategy::TempDirectory => AllocationState::CreatingDirectory,
            Strategy::Pipe => AllocationState::CreatingPipe,
        }
    }

    pub open spec fn pending(self) -> Option<Request> {
        match self {
            AllocationState::OpeningMemoryFile => Some(Request::OpenMemoryFile),
            AllocationState::Reopening { write } => Some(Request::Reopen { handle: write }),
            AllocationState::DiscardingMemoryFile { write }
            | AllocationState::DiscardingFile { write } => Some(Request::Close { handle: write }),
            AllocationState::CreatingDirectory => Some(Request::CreateDirectory),
            AllocationState::CreatingFile => Some(Request::CreateFile),
            AllocationState::OpeningFile { .. } => Some(Request::OpenFile),
            AllocationState::Unlinking { .. } | AllocationState::DiscardingDirectory => Some(
                Request::RemoveDirectory,
            ),
            AllocationState::CreatingPipe => Some(Request::CreatePipe),
            AllocationState::Ready { .. } | AllocationState::Failed { .. } => None,
        }
    }

    /// The state after the call that begins `strategy` has failed with
    /// `error`: the next way where this one is not to be had and another is
    /// left, the error else.
    pub open spec fn give_way(strategy: Strategy, error: OsError) -> AllocationState {
        match strategy.fallback() {
            Some(following) => if strategy.unsupported(error) {
                AllocationState::begin(following)
            } else {
                AllocationState::Failed { error }
            },
            None => AllocationState::Failed { error },
        }
    }

    /// The state after `reply`. Closing a handle and removing the directory
    /// cannot stop the allocation: what the system says of them is not looked
    /// at. A reply that does not answer the pending request changes nothing.
    pub open spec fn next(self, reply: Reply) -> AllocationState {
        match self {
            AllocationState::OpeningMemoryFile => match reply {
                Reply::Handle(write) => AllocationState::Reopening { write },
                Reply::Failed(error) => AllocationState::give_way(Strategy::MemoryFile, error),
                _ => self,
            },
            AllocationState::Reopening { write } => match reply {
                Reply::Handle(read) => AllocationState::Ready {
                    store: Store { write, read, strategy: Strategy::MemoryFile },
                },
                Reply::Failed(_) => AllocationState::DiscardingMemoryFile { write },
                _ => self,
            },
            AllocationState::DiscardingMemoryFile { .. } => match reply {
                Reply::Done | Reply::Failed(_) => AllocationState::CreatingDirectory,
                _ => self,
            },
            AllocationState::CreatingDirectory => match reply {
                Reply::Done => AllocationState::CreatingFile,
                Reply::Failed(error) => AllocationState::give_way(Strategy::TempDirectory, error),
                _ => self,
            },
            AllocationState::CreatingFile => match reply {
                Reply::Handle(write) => AllocationState::OpeningFile { write },
                Reply::Failed(_) => AllocationState::DiscardingDirectory,
                _ => self,
            },
            AllocationState::OpeningFile { write } => match reply {
                Reply::Handle(read) => AllocationState::Unlinking { write, read },
                Reply::Failed(_) => AllocationState::DiscardingFile { write },
                _ => self,
            },
            AllocationState::Unlinking { write, read } => match reply {
                Reply::Done | Reply::Failed(_) => AllocationState::Ready {
                    store: Store { write, read, strategy: Strategy::TempDirectory },
                },
                _ => self,
            },
            AllocationState::DiscardingFile { .. } => match reply {
                Reply::Done | Reply::Failed(_) => AllocationState::DiscardingDirectory,
                _ => self,
            },
            AllocationState::DiscardingDirectory => match reply {
                Reply::Done | Reply::Failed(_) => AllocationState::CreatingPipe,
                _ => self,
            },
            AllocationState::CreatingPipe => match reply {
                Reply::Pair { read, write } => AllocationState::Ready {
                    store: Store { write, read, strategy: Strategy::Pipe },
                },
                Reply::Failed(error) => AllocationState::give_way(Strategy::Pipe, error),
                _ => self,
            },
            AllocationState::Ready { .. } | AllocationState::Failed { .. } => self,
        }
    }

    /// The handles that are open on behalf of the allocation.
    pub open spec fn holds(self) -> Multiset<RawFile> {
        match self {
            AllocationState::Reopening { write }
            | AllocationState::DiscardingMemoryFile { write }
            | AllocationState::OpeningFile { write }
            | AllocationState::DiscardingFile { write } => Multiset::singleton(write),
            AllocationState::Unlinking { write, read } => Multiset::singleton(write).insert(read),
            AllocationState::Ready { store } => Multiset::singleton(store.write).insert(
                store.read,
            ),
            _ => Multiset::empty(),
        }
    }

    /// Whether the temporary directory was created and its removal has not
    /// been asked for yet.
    pub open spec fn owes_removal(self) -> bool {
        self is CreatingFile || self is OpeningFile || self is Unlinking || self is DiscardingFile
            || self is DiscardingDirectory
    }

    /// The way that the allocation is trying, or has settled on.
    pub open spec fn strategy(self) -> Option<Strategy> {
        match self {
            AllocationState::OpeningMemoryFile
            | AllocationState::Reopening { .. }
            | AllocationState::DiscardingMemoryFile { .. } => Some(Strategy::MemoryFile),
            AllocationState::CreatingDirectory
            | AllocationState::CreatingFile
            | AllocationState::OpeningFile { .. }
            | AllocationState::Unlinking { .. }
            | AllocationState::DiscardingFile { .. }
            | AllocationState::DiscardingDirectory => Some(Strategy::TempDirectory),
            AllocationState::CreatingPipe => Some(Strategy::Pipe),
            AllocationState::Ready { store } => Some(store.strategy),
            AllocationState::Failed { .. } => None,
        }
    }

    pub(crate) fn enter(strategy: Strategy) -> (state: AllocationState)
        ensures
            state == AllocationState::begin(strategy),
    {
        match strategy {
            Strategy::MemoryFile => AllocationState::OpeningMemoryFile,
            Strategy::TempDirectory => AllocationState::CreatingDirectory,
            Strategy::Pipe => AllocationState::CreatingPipe,
        }
    }

    pub(crate) fn yield_to_next(strategy: Strategy, error: OsError) -> (state: AllocationState)
        ensures
            state == AllocationState::give_way(strategy, error),
    {
        if !strategy.is_unsupported(error) {
            return AllocationState::Failed { error };
        }
        match strategy {
            Strategy::MemoryFile => AllocationState::CreatingDirectory,
            Strategy::TempDirectory => AllocationState::CreatingPipe,
            Strategy::Pipe => AllocationState::Failed { error },
        }
    }

    pub(crate) fn request(self) -> (request: Option<Request>)
        ensures
            request == self.pending(),
    {
        match self {
            AllocationState::OpeningMemoryFile => Some(Request::OpenMemoryFile),
            AllocationState::Reopening { write } => Some(Request::Reopen { handle: write }),
            AllocationState::DiscardingMemoryFile { write }
            | AllocationState::DiscardingFile { write } => Some(Request::Close { handle: write }),
            AllocationState::CreatingDirectory => Some(Request::CreateDirectory),
            AllocationState::CreatingFile => Some(Request::CreateFile),
            AllocationState::OpeningFile { .. } => Some(Request::OpenFile),
            AllocationState::Unlinking { .. } | AllocationState::DiscardingDirectory => Some(
                Request::RemoveDirectory,
            ),
            AllocationState::CreatingPipe => Some(Request::CreatePipe),
            AllocationState::Ready { .. } | AllocationState::Failed { .. } => None,
        }
    }

    pub(crate) fn step(self, reply: Reply) -> (after: AllocationState)
        ensures
            after == self.next(reply),
    {
        match self {
            AllocationState::OpeningMemoryFile => match reply {
                Reply::Handle(write) => AllocationState::Reopening { write },
                Reply::Failed(error) => AllocationState::yield_to_next(Strategy::MemoryFile, error),
                _ => self,
            },
            AllocationState::Reopening { write } => match reply {
                Reply::Handle(read) => AllocationState::Ready {
                    store: Store { write, read, strategy: Strategy::MemoryFile },
                },
                Reply::Failed(_) => AllocationState::DiscardingMemoryFile { write },
                _ => self,
            },
            AllocationState::DiscardingMemoryFile { .. } => match reply {
                Reply::Done | Reply::Failed(_) => AllocationState::CreatingDirectory,
                _ => self,
            },
            AllocationState::CreatingDirectory => match reply {
                Reply::Done => AllocationState::CreatingFile,
                Reply::Failed(error) => AllocationState::yield_to_next(
                    Strategy::TempDirectory,
                    error,
                ),
                _ => self,
            },
            AllocationState::CreatingFile => match reply {
                Reply::Handle(write) => AllocationState::OpeningFile { write },
                Reply::Failed(_) => AllocationState::DiscardingDirectory,
                _ => self,
            },
            AllocationState::OpeningFile { write } => match reply {
                Reply::Handle(read) => AllocationState::Unlinking { write, read },
                Reply::Failed(_) => AllocationState::DiscardingFile { write },
                _ => self,
            },
            AllocationState::Unlinking { write, read } => match reply {
                Reply::Done | Reply::Failed(_) => AllocationState::Ready {
                    store: Store { write, read, strategy: Strategy::TempDirectory },
                },
                _ => self,
            },
            AllocationState::DiscardingFile { .. } => match reply {
                Reply::Done | Reply::Failed(_) => AllocationState::DiscardingDirectory,
                _ => self,
            },
            AllocationState::DiscardingDirectory => match reply {
                Reply::Done | Reply::Failed(_) => AllocationState::CreatingPipe,
                _ => self,
            },
            AllocationState::CreatingPipe => match reply {
                Reply::Pair { read, write } => AllocationState::Ready {
                    store: Store { write, read, strategy: Strategy::Pipe },
                },
                Reply::Failed(error) => AllocationState::yield_to_next(Strategy::Pipe, error),
                _ => self,
            },
            AllocationState::Ready { .. } | AllocationState::Failed { .. } => self,
        }
    }
}

/// The side of a store that output is written to.
#[derive(Debug)]
pub struct WriteSide {
    handle: RawFile,
}

/// The side of a store that the captured output is read from.
#[derive(Debug)]
pub struct ReadSide {
    handle: RawFile,
    strategy: Strategy,
}

impl AsRawFile for WriteSide {
    closed spec fn raw_file(&self) -> RawFile {
        self.handle
    }

    fn as_raw_file(&self) -> (raw: RawFile) {
        self.handle
    }
}

impl AsRawFile for ReadSide {
    closed spec fn raw_file(&self) -> RawFile {
        self.handle
    }

    fn as_raw_file(&self) -> (raw: RawFile) {
        self.handle
    }
}

impl WriteSide {
    pub(crate) fn of(store: Store) -> (side: WriteSide)
        ensures
            side.raw_file() == store.write,
    {
        WriteSide { handle: store.write }
    }
}

impl ReadSide {
    pub(crate) fn of(store: Store) -> (side: ReadSide)
        ensures
            side.raw_file() == store.read,
            side.backing() == store.strategy,
    {
        ReadSide { handle: store.read, strategy: store.strategy }
    }

    /// The way the store behind this side was made.
    pub closed spec fn backing(&self) -> Strategy {
        self.strategy
    }

    pub fn strategy(&self) -> (strategy: Strategy)
        ensures
            strategy == self.backing(),
    {
        self.strategy
    }
}

/// An allocation in progress.
#[derive(Debug)]
pub struct Allocation {
    state: AllocationState,
}

impl View for Allocation {
    type V = AllocationState;

    closed spec fn view(&self) -> AllocationState {
        self.state
    }
}

impl Allocation {
    /// The call to perform next, if the allocation has not ended.
    pub fn request(&self) -> (request: Option<Request>)
        ensures
            request == self@.pending(),
    {
        self.state.request()
    }

    /// Takes the outcome of the pending call.
    pub fn advance(self, reply: Reply) -> (after: Allocation)
        ensures
            after@ == self@.next(reply),
    {
        Allocation { state: self.state.step(reply) }
    }

    /// The two sides, write side first, or the error of an allocation that
    /// has ended; before that, the allocation itself.
    pub fn finish(self) -> (outcome: Result<Result<(WriteSide, ReadSide), OsError>, Allocation>)
        ensures
            match outcome {
                Ok(Ok((write, read))) => self@ == (AllocationState::Ready {
                    store: Store {
                        write: write.raw_file(),
                        read: read.raw_file(),
                        strategy: read.backing(),
                    },
                }),
                Ok(Err(error)) => self@ == (AllocationState::Failed { error }),
                Err(allocation) => allocation@ == self@ && self@.pending() is Some,
            },
    {
        match self.state {
            AllocationState::Ready { store } => Ok(Ok((WriteSide::of(store), ReadSide::of(store)))),
            AllocationState::Failed { error } => Ok(Err(error)),
            _ => Err(self),
        }
    }
}

/// Reads the result of opening the unnamed file on the memory-backed
/// filesystem: -1 is a failure, with `code` as its error number, and any
/// other result is the descriptor.
pub fn tempfile(result: i32, code: i32) -> (reply: Reply)
    ensures
        reply == (if result == -1 {
            Reply::Failed(OsError { code })
        } else {
            Reply::Handle(result as RawFile)
        }),
{
    if result == -1 {
        Reply::Failed(OsError { code })
    } else {
        Reply::Handle(result as RawFile)
    }
}

/// Begins to make a store on `platform`.
pub fn tempfile_pair(platform: Platform) -> (allocation: Allocation)
    ensures
        allocation@ == AllocationState::begin(platform.first()),
{
    Allocation { state: AllocationState::enter(platform.first_strategy()) }
}

/// No step of an allocation loses a handle or closes one twice: what is open
/// on its behalf afterwards is what was open before, settled by the call.
pub proof fn allocation_keeps_account(state: AllocationState, reply: Reply)
    requires
        state.pending() matches Some(request) && request.accepts(reply),
    ensures
        state.next(reply).holds() == settle(state.holds(), state.pending().unwrap(), reply),
{
    assert(state.next(reply).holds() =~= settle(state.holds(), state.pending().unwrap(), reply));
}

/// The removal of the temporary directory is owed from the call that
/// created it, and is asked for once, before the allocation ends. Whether
/// the directory is gone then is what the system says of that call: the
/// allocation does not ask again.
pub proof fn allocation_removes_directory(state: AllocationState, reply: Reply)
    requires
        state.pending() matches Some(request) && request.accepts(reply),
    ensures
        state.next(reply).owes_removal() == (match state.pending().unwrap() {
            Request::CreateDirectory => reply is Done,
            Request::RemoveDirectory => false,
            _ => state.owes_removal(),
        }),
        state.pending() is None ==> !state.owes_removal(),
        state.pending() == Some(Request::RemoveDirectory) ==> state.owes_removal(),
{
}

/// An allocation never goes back to a way that it has given up: each step
/// stays with the way it is trying or moves to the next one. It fails only
/// where the call that begins a way has failed, and either no way is left
/// or the error does not say that the way is not to be had.
pub proof fn allocation_keeps_order(state: AllocationState, reply: Reply)
    ensures
        match (state.strategy(), state.next(reply).strategy()) {
            (Some(before), Some(after)) => after == before || Some(after) == before.fallback(),
            (Some(before), None) => {
                &&& state == AllocationState::begin(before)
                &&& reply matches Reply::Failed(error)
                &&& state.next(reply) == (AllocationState::Failed { error })
                &&& (before.fallback() is None || !before.unsupported(error))
            },
            (None, after) => after is None,
        },
{
}

/// The call that begins a way decides by its error code. Where the code
/// says that the way is not to be had here, and another way is left, the
/// allocation goes on with that one and has opened nothing. Any other
/// failure ends the allocation with that error.
pub proof fn allocation_falls_back_where_unsupported(strategy: Strategy, error: OsError)
    ensures
        AllocationState::begin(strategy).next(Reply::Failed(error)) == (match strategy.fallback() {
            Some(following) => if strategy.unsupported(error) {
                AllocationState::begin(following)
            } else {
                AllocationState::Failed { error }
            },
            None => AllocationState::Failed { error },
        }),
        AllocationState::begin(strategy).next(Reply::Failed(error)).holds() == Multiset::<
            RawFile,
        >::empty(),
        !strategy.unsupported(error) ==> AllocationState::begin(strategy).next(
            Reply::Failed(error),
        ) == (AllocationState::Failed { error }),
{
}

/// A way that has begun and cannot open a side gives up what it had opened
/// and hands over to the next way, whatever the error: the unnamed file
/// closes its handle, and the temporary directory is removed, after the
/// writer is closed where there is one.
pub proof fn allocation_hands_over_once_begun(
    write: RawFile,
    error: OsError,
    closed: Reply,
    removed: Reply,
)
    requires
        closed is Done || closed is Failed,
        removed is Done || removed is Failed,
    ensures
        ({
            let reopening = AllocationState::Reopening { write };
            let discarding = reopening.next(Reply::Failed(error));
            &&& discarding.pending() == Some(Request::Close { handle: write })
            &&& discarding.next(closed) == AllocationState::begin(Strategy::TempDirectory)
        }),
        ({
            let opening = AllocationState::OpeningFile { write };
            let discarding = opening.next(Reply::Failed(error));
            let removing = discarding.next(closed);
            &&& discarding.pending() == Some(Request::Close { handle: write })
            &&& removing.pending() == Some(Request::RemoveDirectory)
            &&& removing.next(removed) == AllocationState::begin(Strategy::Pipe)
        }),
        ({
            let removing = AllocationState::CreatingFile.next(Reply::Failed(error));
            &&& removing.pending() == Some(Request::RemoveDirectory)
            &&& removing.next(removed) == AllocationState::begin(Strategy::Pipe)
        }),
{
}

} // verus!
