//! Follow-up messages that a handler hands back.

use vstd::prelude::*;

verus! {

/// The follow-up messages of one handler call: nothing at all, or a batch of
/// messages that are dispatched in their order.
pub struct Task<M> {
    messages: Option<Vec<M>>,
}

impl<M> View for Task<M> {
    type V = Option<Seq<M>>;

    closed spec fn view(&self) -> Option<Seq<M>> {
        match self.messages {
            Some(v) => Some(v@),
            None => None,
        }
    }
}

/// The messages of the tasks that hold any, one task after the other.
pub open spec fn flattened<M>(tasks: Seq<Option<Seq<M>>>) -> Seq<M>
    decreases tasks.len(),
{
    if tasks.len() == 0 {
        Seq::empty()
    } else {
        flattened(tasks.drop_last()) + match tasks.last() {
            Some(messages) => messages,
            None => Seq::empty(),
        }
    }
}

/// The views of a list of tasks.
pub open spec fn views<M>(tasks: Seq<Task<M>>) -> Seq<Option<Seq<M>>> {
    Seq::new(tasks.len(), |i: int| tasks[i]@)
}

impl<M> Task<M> {
    /// The task without messages.
    pub fn none() -> (task: Self)
        ensures
            task@ is None,
    {
        Self { messages: None }
    }

    /// The task of one message.
    pub fn new(message: M) -> (task: Self)
        ensures
            task@ == Some(seq![message]),
    {
        let mut messages = Vec::new();
        messages.push(message);
        Self { messages: Some(messages) }
    }

    /// One task of all the messages of `tasks`, in the order of the tasks
    /// and, within a task, in the order of its messages. The result is a
    /// batch even when it holds no message.
    pub fn batch(tasks: Vec<Task<M>>) -> (task: Self)
        ensures
            task@ == Some(flattened(views(tasks@))),
    {
        let ghost all = views(tasks@);
        let mut tasks = tasks;
        // The tasks are taken from the back, so each one goes in front of
        // what was collected so far.
        let mut collected: Vec<M> = Vec::new();
        while tasks.len() > 0
            invariant
                tasks@.len() <= all.len(),
                views(tasks@) == all.subrange(0, tasks@.len() as int),
                flattened(views(tasks@)) + collected@ == flattened(all),
            decreases tasks.len(),
        {
            let ghost before = views(tasks@);
            let task = tasks.pop().unwrap();
            proof {
                assert(views(tasks@) == before.drop_last());
                assert(before.last() == task@);
            }
            match task.messages {
                Some(messages) => {
                    let mut messages = messages;
                    let ghost front = messages@;
                    messages.append(&mut collected);
                    collected = messages;
                    assert(flattened(before) + (collected@.subrange(front.len() as int, collected@.len() as int))
                        == flattened(all));
                    assert(flattened(views(tasks@)) + collected@ == flattened(all)) by {
                        assert(flattened(before) == flattened(views(tasks@)) + front);
                        assert(collected@ == front + collected@.subrange(front.len() as int, collected@.len() as int));
                    }
                },
                None => {},
            }
        }
        assert(all.subrange(0, 0) == Seq::<Option<Seq<M>>>::empty());
        assert(flattened(views(tasks@)) == Seq::<M>::empty());
        assert(collected@ == flattened(all));
        Self { messages: Some(collected) }
    }

    /// The task with `f` applied to each message.
    pub fn map<N, F: Fn(M) -> N>(self, f: F) -> (task: Task<N>)
        requires
            forall|m: M| #[trigger] f.requires((m,)),
        ensures
            self@ is None <==> task@ is None,
            self@ is Some ==> task@->0.len() == self@->0.len(),
            self@ is Some ==> forall|i: int|
                0 <= i < self@->0.len() ==> f.ensures((self@->0[i],), #[trigger] task@->0[i]),
    {
        match self.messages {
            None => Task { messages: None },
            Some(messages) => {
                let ghost source = messages@;
                let mut messages = messages;
                // Popping yields the messages back to front; they are put in
                // order again below.
                let mut reversed: Vec<N> = Vec::new();
                while messages.len() > 0
                    invariant
                        forall|m: M| #[trigger] f.requires((m,)),
                        messages@.len() + reversed@.len() == source.len(),
                        messages@ == source.subrange(0, messages@.len() as int),
                        forall|i: int|
                            0 <= i < reversed@.len() ==> f.ensures(
                                (source[source.len() - 1 - i],),
                                #[trigger] reversed@[i],
                            ),
                    decreases messages.len(),
                {
                    let m = messages.pop().unwrap();
                    let n = f(m);
                    reversed.push(n);
                }
                let ghost turned = reversed@;
                let mut mapped: Vec<N> = Vec::new();
                while reversed.len() > 0
                    invariant
                        turned.len() == source.len(),
                        reversed@.len() + mapped@.len() == turned.len(),
                        reversed@ == turned.subrange(0, reversed@.len() as int),
                        forall|i: int|
                            0 <= i < turned.len() ==> f.ensures(
                                (source[source.len() - 1 - i],),
                                #[trigger] turned[i],
                            ),
                        forall|i: int|
                            0 <= i < mapped@.len() ==> f.ensures(
                                (source[i],),
                                #[trigger] mapped@[i],
                            ),
                    decreases reversed.len(),
                {
                    let ghost k = reversed@.len() - 1;
                    let n = reversed.pop().unwrap();
                    assert(n == turned[k]);
                    mapped.push(n);
                }
                Task { messages: Some(mapped) }
            },
        }
    }

    /// Whether the task is the one without messages. An empty batch is not.
    pub fn is_none(&self) -> (none: bool)
        ensures
            none == (self@ is None),
    {
        self.messages.is_none()
    }

    /// The messages of the task; none for the task without messages.
    pub fn into_inner(self) -> (messages: Vec<M>)
        ensures
            messages@ == match self@ {
                Some(batch) => batch,
                None => Seq::empty(),
            },
    {
        match self.messages {
            Some(messages) => messages,
            None => Vec::new(),
        }
    }
}

} // verus!
