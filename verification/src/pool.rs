//! What the reads of a capture bring.
//!
//! The engine never sees the bytes that are captured: it asks for a read and
//! is told how many bytes are in the transfer buffer. This module gives the
//! two calls on the read side a meaning on a model of the store, and states
//! over it what reading a capture to its end amounts to: the bytes that were
//! written, all of them, in their order.
//!
//! The model is the same for a file and for a pipe. The store holds what was
//! written to its write side, in order, and remembers how much of it the
//! read side has taken. A read brings the bytes that follow, as many as the
//! system likes: at least one where there is one and room for it, and no
//! more than there are or than was asked for.

use crate::buffer::ReadState;
use crate::os::{RawFile, Reply, Request};
use vstd::prelude::*;

verus! {

/// The content of a store: what was written to it, and how many of those
/// bytes the read side has taken.
pub struct Pool {
    pub written: Seq<u8>,
    pub taken: nat,
}

impl Pool {
    /// No more is taken than was written.
    pub open spec fn wf(self) -> bool {
        self.taken <= self.written.len()
    }

    /// A store that was just made.
    pub open spec fn fresh() -> Pool {
        Pool { written: Seq::empty(), taken: 0 }
    }

    /// The store after `bytes` were written to its write side.
    pub open spec fn write(self, bytes: Seq<u8>) -> Pool {
        Pool { written: self.written + bytes, taken: self.taken }
    }

    /// What is written and not taken yet.
    pub open spec fn rest(self) -> Seq<u8> {
        self.written.skip(self.taken as int)
    }

    /// Whether the system can give `reply` to `request` on the read side of
    /// this store, where the call does not fail. It counts no more than is
    /// there, and nothing only where nothing is there. It reads no more than
    /// is there or was asked for, and nothing only where nothing is there or
    /// nothing was asked for.
    pub open spec fn gives(self, request: Request, reply: Reply) -> bool {
        match (request, reply) {
            (Request::Peek { .. }, Reply::Count(available)) => {
                &&& available <= self.rest().len()
                &&& available == 0 ==> self.rest().len() == 0
            },
            (Request::Read { limit, .. }, Reply::Count(count)) => {
                &&& count <= limit
                &&& count <= self.rest().len()
                &&& count == 0 ==> limit == 0 || self.rest().len() == 0
            },
            _ => false,
        }
    }

    /// The bytes that the call has put into the transfer buffer.
    pub open spec fn brought(self, request: Request, reply: Reply) -> Seq<u8> {
        match (request, reply) {
            (Request::Read { .. }, Reply::Count(count)) => self.rest().take(count as int),
            _ => Seq::empty(),
        }
    }

    /// The store after the call.
    pub open spec fn after(self, request: Request, reply: Reply) -> Pool {
        match (request, reply) {
            (Request::Read { .. }, Reply::Count(count)) => Pool {
                written: self.written,
                taken: (self.taken + count) as nat,
            },
            _ => self,
        }
    }
}

/// Whether the system gives each of `replies` to the call that is pending
/// when it comes.
pub open spec fn granted(pool: Pool, state: ReadState, replies: Seq<Reply>) -> bool
    decreases replies.len(),
{
    if replies.len() == 0 {
        true
    } else {
        match state.pending() {
            Some(request) => pool.gives(request, replies[0]) && granted(
                pool.after(request, replies[0]),
                state.next(replies[0]),
                replies.skip(1),
            ),
            None => false,
        }
    }
}

/// One read on the store: the state of the read after `replies`, the store
/// after them, and the bytes that they have put into the transfer buffer.
pub open spec fn read_on(pool: Pool, state: ReadState, replies: Seq<Reply>) -> (
    ReadState,
    Pool,
    Seq<u8>,
)
    decreases replies.len(),
{
    if replies.len() == 0 {
        (state, pool, Seq::empty())
    } else {
        match state.pending() {
            Some(request) => {
                let (end, left, more) = read_on(
                    pool.after(request, replies[0]),
                    state.next(replies[0]),
                    replies.skip(1),
                );
                (end, left, pool.brought(request, replies[0]) + more)
            },
            None => (state, pool, Seq::empty()),
        }
    }
}

/// Whether `rounds` are the replies to reads of at most `len` bytes, one
/// read after the other, that read the store until a read brings nothing:
/// every read ends with a count, the last one with zero and none before it.
pub open spec fn reads_to_the_end(
    pool: Pool,
    polls: bool,
    handle: RawFile,
    len: usize,
    rounds: Seq<Seq<Reply>>,
) -> bool
    decreases rounds.len(),
{
    if rounds.len() == 0 {
        false
    } else {
        let start = ReadState::begin(polls, handle, len);
        let (end, left, _) = read_on(pool, start, rounds[0]);
        &&& granted(pool, start, rounds[0])
        &&& end matches ReadState::Finished { count }
        &&& if rounds.len() == 1 {
            count == 0
        } else {
            count > 0 && reads_to_the_end(left, polls, handle, len, rounds.skip(1))
        }
    }
}

/// The bytes that the reads have brought, one read after the other.
pub open spec fn collected(
    pool: Pool,
    polls: bool,
    handle: RawFile,
    len: usize,
    rounds: Seq<Seq<Reply>>,
) -> Seq<u8>
    decreases rounds.len(),
{
    if rounds.len() == 0 {
        Seq::empty()
    } else {
        let (_, left, brought) = read_on(pool, ReadState::begin(polls, handle, len), rounds[0]);
        brought + collected(left, polls, handle, len, rounds.skip(1))
    }
}

/// One read of a capture brings the bytes that follow those already taken,
/// as many as its count says, and takes them. It ends with zero exactly
/// where nothing was left, whether it polls or not; a read that polls and
/// finds nothing asks for no read.
pub proof fn read_brings_what_follows(
    pool: Pool,
    polls: bool,
    handle: RawFile,
    len: usize,
    replies: Seq<Reply>,
)
    requires
        pool.wf(),
        len > 0,
        granted(pool, ReadState::begin(polls, handle, len), replies),
        read_on(pool, ReadState::begin(polls, handle, len), replies).0 is Finished,
    ensures
        ({
            let (end, left, brought) = read_on(
                pool,
                ReadState::begin(polls, handle, len),
                replies,
            );
            let count = end->Finished_count;
            &&& brought == pool.rest().take(count as int)
            &&& left.written == pool.written
            &&& left.taken == pool.taken + count
            &&& left.wf()
            &&& count == 0 <==> pool.rest().len() == 0
            &&& count == 0 && polls ==> replies.len() == 1
        }),
{
    reveal_with_fuel(read_on, 4);
    reveal_with_fuel(granted, 4);
    let start = ReadState::begin(polls, handle, len);
    let (end, left, brought) = read_on(pool, start, replies);
    let count = end->Finished_count;
    assert(replies.len() > 0);
    let first = replies[0];
    if polls {
        let available = first->Count_0;
        if available > 0 {
            assert(replies.len() > 1);
            let tail = replies.skip(1);
            assert(tail[0] == replies[1]);
            assert(tail.skip(1).len() == replies.len() - 2);
            assert(tail.skip(1).len() == 0);
            assert(brought =~= pool.rest().take(count as int));
        } else {
            assert(replies.skip(1).len() == 0);
            assert(brought =~= pool.rest().take(count as int));
        }
    } else {
        assert(replies.skip(1).len() == 0);
        assert(brought =~= pool.rest().take(count as int));
    }
}

/// Reading a capture until a read brings nothing brings exactly the bytes
/// that were written and not taken before: the same bytes, in the same
/// order, none left out and none twice. After that nothing is left. And
/// where nothing was there, the first read is the last.
pub proof fn reading_to_the_end_brings_the_rest(
    pool: Pool,
    polls: bool,
    handle: RawFile,
    len: usize,
    rounds: Seq<Seq<Reply>>,
)
    requires
        pool.wf(),
        len > 0,
        reads_to_the_end(pool, polls, handle, len, rounds),
    ensures
        collected(pool, polls, handle, len, rounds) == pool.rest(),
        pool.rest().len() == 0 ==> rounds.len() == 1,
    decreases rounds.len(),
{
    let start = ReadState::begin(polls, handle, len);
    let (end, left, brought) = read_on(pool, start, rounds[0]);
    let count = end->Finished_count;
    read_brings_what_follows(pool, polls, handle, len, rounds[0]);
    if rounds.len() == 1 {
        assert(rounds.skip(1).len() == 0);
        assert(collected(left, polls, handle, len, rounds.skip(1)) =~= Seq::<u8>::empty());
        assert(collected(pool, polls, handle, len, rounds) =~= pool.rest());
    } else {
        reading_to_the_end_brings_the_rest(left, polls, handle, len, rounds.skip(1));
        assert(left.rest() =~= pool.rest().skip(count as int));
        assert(pool.rest().take(count as int) + pool.rest().skip(count as int) =~= pool.rest());
        assert(collected(pool, polls, handle, len, rounds) =~= pool.rest());
    }
}

/// What was written to a capture since it was made, and read from it until
/// a read brings nothing, comes back as it was written: the same bytes, in
/// the same order and of the same length, whatever the length and however
/// the system cuts it into reads. Where nothing was written, the first read
/// brings nothing.
pub proof fn captured_bytes_are_read_back(
    written: Seq<u8>,
    polls: bool,
    handle: RawFile,
    len: usize,
    rounds: Seq<Seq<Reply>>,
)
    requires
        len > 0,
        reads_to_the_end(Pool::fresh().write(written), polls, handle, len, rounds),
    ensures
        collected(Pool::fresh().write(written), polls, handle, len, rounds) == written,
        written.len() == 0 ==> rounds.len() == 1,
{
    let pool = Pool::fresh().write(written);
    assert(pool.written =~= written);
    assert(pool.rest() =~= written);
    reading_to_the_end_brings_the_rest(pool, polls, handle, len, rounds);
}

/// What is written in parts is held as one: the parts in their order.
pub proof fn writes_add_up(pool: Pool, first: Seq<u8>, second: Seq<u8>)
    requires
        pool.wf(),
    ensures
        pool.write(first).write(second) == pool.write(first + second),
        pool.write(first).wf(),
        pool.write(first).rest() == pool.rest() + first,
{
    assert(pool.write(first).write(second).written =~= pool.write(first + second).written);
    assert(pool.write(first).rest() =~= pool.rest() + first);
}

} // verus!
