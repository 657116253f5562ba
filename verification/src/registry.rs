//! The slots of the two streams.

use crate::stream::StreamId;
use vstd::prelude::*;

verus! {

/// One flag for each stream: whether a redirection of it is active. At most
/// one guard holds a stream at a time, because a guard is made only by the
/// claim that found the flag down and raised it.
#[derive(Debug)]
pub struct RedirectionRegistry {
    stdout: bool,
    stderr: bool,
}

impl View for RedirectionRegistry {
    type V = Set<StreamId>;

    /// The streams that are claimed.
    closed spec fn view(&self) -> Set<StreamId> {
        Set::new(
            |stream: StreamId|
                match stream {
                    StreamId::Stdout => self.stdout,
                    StreamId::Stderr => self.stderr,
                },
        )
    }
}

impl RedirectionRegistry {
    /// A registry in which no stream is claimed.
    pub fn new() -> (registry: RedirectionRegistry)
        ensures
            registry@ == Set::<StreamId>::empty(),
    {
        let registry = RedirectionRegistry { stdout: false, stderr: false };
        assert(registry@ =~= Set::<StreamId>::empty());
        registry
    }

    pub fn is_claimed(&self, stream: StreamId) -> (claimed: bool)
        ensures
            claimed == self@.contains(stream),
    {
        match stream {
            StreamId::Stdout => self.stdout,
            StreamId::Stderr => self.stderr,
        }
    }

    /// Raises the flag of `stream` and says whether it was raised before.
    pub fn test_and_set(&mut self, stream: StreamId) -> (was_claimed: bool)
        ensures
            was_claimed == old(self)@.contains(stream),
            final(self)@ == old(self)@.insert(stream),
    {
        let was_claimed = self.is_claimed(stream);
        match stream {
            StreamId::Stdout => {
                self.stdout = true;
            },
            StreamId::Stderr => {
                self.stderr = true;
            },
        }
        assert(self@ =~= old(self)@.insert(stream));
        was_claimed
    }

    /// Lowers the flag of `stream`.
    pub fn clear(&mut self, stream: StreamId)
        ensures
            final(self)@ == old(self)@.remove(stream),
    {
        match stream {
            StreamId::Stdout => {
                self.stdout = false;
            },
            StreamId::Stderr => {
                self.stderr = false;
            },
        }
        assert(self@ =~= old(self)@.remove(stream));
    }
}

impl Default for RedirectionRegistry {
    fn default() -> (registry: RedirectionRegistry)
        ensures
            registry@ == Set::<StreamId>::empty(),
    {
        RedirectionRegistry::new()
    }
}

} // verus!
