//! Temporarily redirect the standard output or standard error stream of a
//! process, and restore it afterwards.
//!
//! A stream can be redirected into a sink of the caller ([`Redirect`]),
//! discarded ([`Gag`]), captured in a transient store and read back
//! ([`BufferRedirect`]), or held back and printed when the hold is released
//! ([`Hold`]). Only one redirection of a stream is active at a time: the
//! flags of the two streams are kept in a
//! [`RedirectionRegistry`](registry::RedirectionRegistry), which the caller
//! owns and hands to every step that may claim or free a stream.
//!
//! The crate holds the decisions of the redirection engine and makes no
//! system call. Every operation is a small state machine. It names the call
//! that is to be made next, as a [`Request`](os::Request); it takes the
//! outcome of that call, as a [`Reply`](os::Reply), and moves on; and when
//! nothing is pending it hands out its result. A driver runs it:
//!
//! ```text
//! let mut capture = BufferRedirect::stdout(Platform::Linux);
//! while let Some(request) = capture.request() {
//!     let reply = perform(request);
//!     capture = capture.advance(&mut registry, reply);
//! }
//! let captured = capture.finish();
//! ```
//!
//! A value that stands for an active redirection does not give the stream
//! back when it is dropped: its `release`, `retire` or `into_inner` starts
//! the machine that does.
//!
//! What a machine does is stated twice. Its transition function says, for
//! every state and every reply, which state follows and which flags are up.
//! Proof functions beside it say what that amounts to: that no step loses a
//! handle or closes one twice, that a stream which is claimed cannot be
//! claimed again, that a failed set-up leaves flags and handles as they
//! were, and that a release cannot fail.
//!
//! The machines see numbers of handles and counts of bytes, not what a
//! stream points to nor which bytes move. Two models say what the calls
//! mean: [`table`] for the handle table, over which a release is shown to
//! undo its claim, and [`pool`] for the content of a store, over which
//! reading a capture to its end is shown to bring back what was written.

pub mod buffer;
pub mod gag;
pub mod guard;
pub mod hold;
pub mod os;
pub mod pipe;
pub mod pool;
pub mod redirect;
pub mod registry;
pub mod store;
pub mod stream;
pub mod table;

pub use crate::buffer::{Buffer, BufferRedirect};
pub use crate::gag::Gag;
pub use crate::hold::Hold;
pub use crate::redirect::{Redirect, RedirectError};
