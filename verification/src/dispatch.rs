//! The work queue of the session: the messages that wait to be dispatched.
//!
//! One event from outside starts a batch. The session pushes the message of
//! the event, then pops message after message, hands each to the component
//! that owns it, performs the instruction that comes back and puts the
//! follow-up messages at the back of the queue. When the queue is empty the
//! batch is complete and the screen is drawn. Follow-ups of follow-ups land
//! in the same queue, so the depth of a batch costs no stack.

use crate::task::Task;
use std::collections::VecDeque;
use vstd::prelude::*;

verus! {

/// The messages that wait, the oldest first.
pub struct WorkQueue<M> {
    pending: VecDeque<M>,
}

impl<M> View for WorkQueue<M> {
    type V = Seq<M>;

    closed spec fn view(&self) -> Seq<M> {
        self.pending@
    }
}

/// The messages of a task, none for the task without messages.
pub open spec fn messages_of<M>(task: Option<Seq<M>>) -> Seq<M> {
    match task {
        Some(messages) => messages,
        None => Seq::empty(),
    }
}

/// The messages that the steps of a batch hand to the components, in the
/// order in which they are handed out: each step takes the oldest message
/// and appends the follow-ups that `follow_ups` gives for it.
pub open spec fn handled<M>(queue: Seq<M>, follow_ups: spec_fn(M) -> Seq<M>, steps: nat) -> Seq<M>
    decreases steps,
{
    if steps == 0 || queue.len() == 0 {
        Seq::empty()
    } else {
        seq![queue[0]] + handled(
            queue.drop_first() + follow_ups(queue[0]),
            follow_ups,
            (steps - 1) as nat,
        )
    }
}

/// The messages that still wait after the steps of a batch.
pub open spec fn waiting<M>(queue: Seq<M>, follow_ups: spec_fn(M) -> Seq<M>, steps: nat) -> Seq<M>
    decreases steps,
{
    if steps == 0 || queue.len() == 0 {
        queue
    } else {
        waiting(queue.drop_first() + follow_ups(queue[0]), follow_ups, (steps - 1) as nat)
    }
}

/// Whether each message of `chain` has the next one as its only follow-up,
/// and the last one has none.
pub open spec fn is_chain<M>(chain: Seq<M>, follow_ups: spec_fn(M) -> Seq<M>) -> bool {
    &&& chain.len() > 0
    &&& forall|i: int| 0 <= i < chain.len() - 1 ==> follow_ups(#[trigger] chain[i]) == seq![chain[i + 1]]
    &&& follow_ups(chain.last()) == Seq::<M>::empty()
}

impl<M> WorkQueue<M> {
    /// The empty queue.
    pub fn new() -> (queue: Self)
        ensures
            queue@ == Seq::<M>::empty(),
    {
        WorkQueue { pending: VecDeque::new() }
    }

    /// Puts a message at the back.
    pub fn push(&mut self, message: M)
        ensures
            final(self)@ == old(self)@.push(message),
    {
        self.pending.push_back(message);
    }

    /// Takes the oldest message.
    pub fn pop(&mut self) -> (message: Option<M>)
        ensures
            old(self)@.len() > 0 ==> message == Some(old(self)@[0]) && final(self)@ == old(
                self,
            )@.drop_first(),
            old(self)@.len() == 0 ==> message is None && final(self)@ == old(self)@,
    {
        let message = self.pending.pop_front();
        proof {
            if old(self)@.len() > 0 {
                assert(self.pending@ == old(self)@.drop_first());
            }
        }
        message
    }

    /// Puts the messages of a task at the back, in their order.
    pub fn absorb(&mut self, task: Task<M>)
        ensures
            final(self)@ == old(self)@ + messages_of(task@),
    {
        let messages = task.into_inner();
        let ghost all = messages@;
        let mut rest: VecDeque<M> = VecDeque::new();
        let mut messages = messages;
        while messages.len() > 0
            invariant
                messages@ + rest@ == all,
            decreases messages.len(),
        {
            let message = messages.pop().unwrap();
            rest.push_front(message);
        }
        self.pending.append(&mut rest);
    }

    pub fn is_empty(&self) -> (empty: bool)
        ensures
            empty == (self@.len() == 0),
    {
        self.pending.len() == 0
    }

    pub fn len(&self) -> (len: usize)
        ensures
            len == self@.len(),
    {
        self.pending.len()
    }
}

/// Messages leave the queue in the order in which they came, and follow-ups
/// come after everything that waited before them: when a message is taken and
/// its follow-ups are appended, the messages that waited behind it are handed
/// out next, in their order, and only then the follow-ups, in theirs.
pub proof fn law_fifo<M>(queue: Seq<M>, follow_ups: spec_fn(M) -> Seq<M>, extra: nat)
    requires
        queue.len() > 0,
    ensures
        handled(queue, follow_ups, queue.len() + extra).subrange(0, queue.len() as int) == queue,
        ({
            let first = follow_ups(queue[0]);
            let n = queue.len() + first.len();
            extra >= first.len() ==> handled(queue, follow_ups, queue.len() + extra).subrange(
                queue.len() as int,
                n as int,
            ) == first
        }),
{
    lemma_handled_prefix(queue, follow_ups, queue.len() + extra);
    let first = follow_ups(queue[0]);
    let next = queue.drop_first() + first;
    let steps = queue.len() + extra;
    let whole = handled(queue, follow_ups, steps);
    assert(whole == seq![queue[0]] + handled(next, follow_ups, (steps - 1) as nat));
    if extra >= first.len() {
        lemma_handled_prefix(next, follow_ups, (steps - 1) as nat);
        let tail = handled(next, follow_ups, (steps - 1) as nat);
        assert(tail.subrange(0, next.len() as int) == next);
        assert(whole.subrange(queue.len() as int, (queue.len() + first.len()) as int) =~= first) by {
            assert forall|i: int| 0 <= i < first.len() implies whole[queue.len() + i] == first[i] by {
                assert(whole[queue.len() + i] == tail[queue.len() - 1 + i]);
                assert(tail[queue.len() - 1 + i] == tail.subrange(0, next.len() as int)[queue.len()
                    - 1 + i]);
            }
        }
    }
}

/// A chain of handlers, each of which emits the message for the next, runs
/// to its end within one batch: started with the first message alone, the
/// batch hands out every message of the chain, in order, in as many steps as
/// the chain is long, and then nothing waits any more.
pub proof fn law_chain_completes<M>(chain: Seq<M>, follow_ups: spec_fn(M) -> Seq<M>, extra: nat)
    requires
        is_chain(chain, follow_ups),
    ensures
        handled(seq![chain[0]], follow_ups, chain.len() + extra) == chain,
        waiting(seq![chain[0]], follow_ups, chain.len() + extra) == Seq::<M>::empty(),
{
    lemma_chain_from(chain, follow_ups, 0, chain.len() + extra);
    assert(chain.subrange(0, chain.len() as int) == chain);
}

/// The batch that starts in the middle of a chain runs the rest of it.
proof fn lemma_chain_from<M>(chain: Seq<M>, follow_ups: spec_fn(M) -> Seq<M>, from: int, steps: nat)
    requires
        is_chain(chain, follow_ups),
        0 <= from < chain.len(),
        steps >= chain.len() - from,
    ensures
        handled(seq![chain[from]], follow_ups, steps) == chain.subrange(from, chain.len() as int),
        waiting(seq![chain[from]], follow_ups, steps) == Seq::<M>::empty(),
    decreases chain.len() - from,
{
    let queue = seq![chain[from]];
    let next = queue.drop_first() + follow_ups(queue[0]);
    let rest = (steps - 1) as nat;
    assert(queue.drop_first() == Seq::<M>::empty());
    if from == chain.len() - 1 {
        assert(chain[from] == chain.last());
        assert(next == Seq::<M>::empty());
        assert(handled(next, follow_ups, rest) == Seq::<M>::empty());
        assert(waiting(next, follow_ups, rest) == Seq::<M>::empty());
        assert(handled(queue, follow_ups, steps) == chain.subrange(from, chain.len() as int));
    } else {
        assert(next == seq![chain[from + 1]]);
        lemma_chain_from(chain, follow_ups, from + 1, rest);
        assert(handled(queue, follow_ups, steps) == seq![chain[from]] + chain.subrange(
            from + 1,
            chain.len() as int,
        ));
        assert(handled(queue, follow_ups, steps) == chain.subrange(from, chain.len() as int));
    }
}

/// The first messages handed out are those that waited, in their order.
proof fn lemma_handled_prefix<M>(queue: Seq<M>, follow_ups: spec_fn(M) -> Seq<M>, steps: nat)
    requires
        steps >= queue.len(),
    ensures
        handled(queue, follow_ups, steps).len() >= queue.len(),
        handled(queue, follow_ups, steps).subrange(0, queue.len() as int) == queue,
    decreases steps,
{
    if queue.len() == 0 {
        assert(handled(queue, follow_ups, steps).subrange(0, 0) =~= queue);
    } else {
        let next = queue.drop_first() + follow_ups(queue[0]);
        let rest = queue.drop_first();
        lemma_handled_within(next, rest.len(), follow_ups, (steps - 1) as nat);
        let tail = handled(next, follow_ups, (steps - 1) as nat);
        let whole = handled(queue, follow_ups, steps);
        assert(whole == seq![queue[0]] + tail);
        assert(whole.subrange(0, queue.len() as int) =~= queue) by {
            assert forall|i: int| 0 <= i < queue.len() implies whole[i] == queue[i] by {
                if i > 0 {
                    assert(whole[i] == tail[i - 1]);
                    assert(tail[i - 1] == tail.subrange(0, rest.len() as int)[i - 1]);
                    assert(next[i - 1] == rest[i - 1]);
                }
            }
        }
    }
}

/// The first `count` messages handed out are the first `count` that waited.
proof fn lemma_handled_within<M>(
    queue: Seq<M>,
    count: nat,
    follow_ups: spec_fn(M) -> Seq<M>,
    steps: nat,
)
    requires
        count <= queue.len(),
        steps >= count,
    ensures
        handled(queue, follow_ups, steps).len() >= count,
        handled(queue, follow_ups, steps).subrange(0, count as int) == queue.subrange(
            0,
            count as int,
        ),
    decreases steps,
{
    if count == 0 {
        assert(handled(queue, follow_ups, steps).subrange(0, 0) =~= queue.subrange(0, 0));
    } else {
        let next = queue.drop_first() + follow_ups(queue[0]);
        lemma_handled_within(next, (count - 1) as nat, follow_ups, (steps - 1) as nat);
        let tail = handled(next, follow_ups, (steps - 1) as nat);
        let whole = handled(queue, follow_ups, steps);
        assert(whole == seq![queue[0]] + tail);
        assert(whole.subrange(0, count as int) =~= queue.subrange(0, count as int)) by {
            assert forall|i: int| 0 <= i < count implies whole[i] == queue[i] by {
                if i > 0 {
                    assert(whole[i] == tail[i - 1]);
                    assert(tail[i - 1] == tail.subrange(0, count - 1)[i - 1]);
                    assert(next.subrange(0, count - 1)[i - 1] == next[i - 1]);
                }
            }
        }
    }
}

} // verus!
