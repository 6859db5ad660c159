//! What a component hands back from a message: an instruction for the
//! session and follow-up messages.

use crate::task::Task;
use vstd::prelude::*;

verus! {

/// The answer of a component to one message. The instruction is a side
/// effect that only the session can perform; the task holds the messages to
/// dispatch next.
pub struct Action<I, Message> {
    pub instruction: Option<I>,
    pub message: Task<Message>,
}

/// An action as contracts speak of it.
pub struct ActionView<I, Message> {
    pub instruction: Option<I>,
    pub messages: Option<Seq<Message>>,
}

impl<I, Message> View for Action<I, Message> {
    type V = ActionView<I, Message>;

    open spec fn view(&self) -> ActionView<I, Message> {
        ActionView { instruction: self.instruction, messages: self.message@ }
    }
}

impl<I, Message> ActionView<I, Message> {
    /// Neither an instruction nor a message.
    pub open spec fn nothing() -> Self {
        ActionView { instruction: None, messages: None }
    }

    /// One instruction and no message.
    pub open spec fn instruct(instruction: I) -> Self {
        ActionView { instruction: Some(instruction), messages: None }
    }

    /// One message and no instruction.
    pub open spec fn send(message: Message) -> Self {
        ActionView { instruction: None, messages: Some(seq![message]) }
    }
}

impl<I, Message> Action<I, Message> {
    pub fn none() -> (action: Self)
        ensures
            action@ == ActionView::<I, Message>::nothing(),
    {
        Self { instruction: None, message: Task::none() }
    }

    pub fn instruction(instruction: I) -> (action: Self)
        ensures
            action@ == ActionView::<I, Message>::instruct(instruction),
    {
        Self { instruction: Some(instruction), message: Task::none() }
    }

    pub fn message(message: Message) -> (action: Self)
        ensures
            action@ == ActionView::<I, Message>::send(message),
    {
        Self { instruction: None, message: Task::new(message) }
    }

    /// The action with `f` applied to each follow-up message.
    pub fn map<N, F: Fn(Message) -> N>(self, f: F) -> (action: Action<I, N>)
        requires
            forall|m: Message| #[trigger] f.requires((m,)),
        ensures
            action@.instruction == self@.instruction,
            self@.messages is None <==> action@.messages is None,
            self@.messages is Some ==> action@.messages->0.len() == self@.messages->0.len(),
            self@.messages is Some ==> forall|i: int|
                0 <= i < self@.messages->0.len() ==> f.ensures(
                    (self@.messages->0[i],),
                    #[trigger] action@.messages->0[i],
                ),
    {
        Action { instruction: self.instruction, message: self.message.map(f) }
    }

    /// The action with `f` applied to the instruction, if there is one.
    pub fn map_instruction<N, F: Fn(I) -> N>(self, f: F) -> (action: Action<N, Message>)
        requires
            forall|i: I| #[trigger] f.requires((i,)),
        ensures
            action@.messages == self@.messages,
            self@.instruction is None <==> action@.instruction is None,
            self@.instruction is Some ==> f.ensures(
                (self@.instruction->0,),
                action@.instruction->0,
            ),
    {
        let instruction = match self.instruction {
            Some(i) => Some(f(i)),
            None => None,
        };
        Action { instruction, message: self.message }
    }

    /// The action with its instruction replaced.
    pub fn with_instruction(self, instruction: I) -> (action: Self)
        ensures
            action@ == (ActionView { instruction: Some(instruction), messages: self@.messages }),
    {
        let mut action = self;
        action.instruction = Some(instruction);
        action
    }

    /// The action with its follow-up messages replaced by the one given.
    pub fn with_message(self, message: Message) -> (action: Self)
        ensures
            action@ == (ActionView {
                instruction: self@.instruction,
                messages: Some(seq![message]),
            }),
    {
        let mut action = self;
        action.message = Task::new(message);
        action
    }
}

} // verus!
