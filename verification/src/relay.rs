//! The input relay: an ordered queue from the transport to the shell.
//!
//! The transport enqueues what arrives on the input topic and never waits;
//! one writer takes the payloads out in the order in which they came and
//! writes them to the pseudo-terminal. The queue has no bound.

use std::collections::VecDeque;
use vstd::prelude::*;

verus! {

/// How one write to the pseudo-terminal ended.
#[derive(Clone, Copy, Debug, PartialEq, Eq, Structural)]
pub enum WriteOutcome {
    /// All bytes were written and flushed.
    Flushed,
    /// All bytes were written; the flush failed.
    FlushFailed,
    /// The write failed.
    WriteFailed,
}

/// Whether the writer goes on after a write. Only a failed write ends it;
/// a failed flush is noted and the writer continues.
pub open spec fn writer_continues(outcome: WriteOutcome) -> bool {
    outcome != WriteOutcome::WriteFailed
}

/// Decides whether the writer goes on after a write.
pub fn after_write(outcome: WriteOutcome) -> (go_on: bool)
    ensures
        go_on == writer_continues(outcome),
{
    match outcome {
        WriteOutcome::WriteFailed => false,
        _ => true,
    }
}

/// The queue of input payloads that wait to be written to the shell.
pub struct InputRelay {
    queue: VecDeque<Vec<u8>>,
}

impl View for InputRelay {
    type V = Seq<Seq<u8>>;

    /// The waiting payloads, oldest first.
    closed spec fn view(&self) -> Seq<Seq<u8>> {
        Seq::new(self.queue@.len(), |i: int| self.queue@[i]@)
    }
}

impl InputRelay {
    /// An empty relay.
    pub fn new() -> (relay: InputRelay)
        ensures
            relay@ == Seq::<Seq<u8>>::empty(),
    {
        let relay = InputRelay { queue: VecDeque::new() };
        assert(relay@ =~= Seq::<Seq<u8>>::empty());
        relay
    }

    /// How many payloads wait.
    pub fn len(&self) -> (n: usize)
        ensures
            n == self@.len(),
    {
        self.queue.len()
    }

    /// Whether nothing waits.
    pub fn is_empty(&self) -> (empty: bool)
        ensures
            empty == (self@.len() == 0),
    {
        self.queue.len() == 0
    }

    /// Puts a payload at the end of the queue.
    pub fn enqueue(&mut self, payload: Vec<u8>)
        ensures
            final(self)@ == old(self)@.push(payload@),
    {
        self.queue.push_back(payload);
        assert(self@ =~= old(self)@.push(payload@));
    }

    /// Takes the oldest payload out of the queue, if there is one.
    pub fn dequeue(&mut self) -> (payload: Option<Vec<u8>>)
        ensures
            match payload {
                Some(bytes) => old(self)@.len() > 0 && bytes@ == old(self)@[0] && final(self)@
                    == old(self)@.drop_first(),
                None => old(self)@.len() == 0 && final(self)@ == old(self)@,
            },
    {
        let payload = self.queue.pop_front();
        assert(payload is Some ==> self@ =~= old(self)@.drop_first());
        assert(payload is None ==> self@ =~= old(self)@);
        payload
    }
}

/// The relay hands payloads out in the order in which they came in: after
/// `later` is enqueued behind what waits, everything that waited comes out
/// first and unchanged.
pub proof fn lemma_relay_keeps_order(waiting: Seq<Seq<u8>>, later: Seq<u8>, k: int)
    requires
        0 <= k < waiting.len(),
    ensures
        waiting.push(later)[k] == waiting[k],
        waiting.push(later)[waiting.len() as int] == later,
        waiting.len() > 0 ==> waiting.push(later).drop_first() == waiting.drop_first().push(later),
{
    assert(waiting.push(later).drop_first() =~= waiting.drop_first().push(later));
}

} // verus!
