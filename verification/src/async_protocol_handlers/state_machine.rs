//! A state machine that takes in messages and queues others for sending.
use super::MappedIncomingHandler;
use super::parser_relation;
use crate::types::{DKGError, Msg};
use vstd::prelude::*;

verus! {

/// A party of the protocol, with the messages that it has still to send.
#[derive(Debug, PartialEq, Eq)]
pub struct DKGStateMachine<T> {
    message_queue: Vec<Msg<T>>,
}

/// The view of a party is its queue.
impl<T> View for DKGStateMachine<T> {
    type V = Seq<Msg<T>>;

    closed spec fn view(&self) -> Seq<Msg<T>> {
        self.message_queue@
    }
}

impl<T: MappedIncomingHandler> DKGStateMachine<T> {
    /// A party with nothing to send.
    pub fn new() -> (machine: Self)
        ensures
            machine@ == Seq::<Msg<T>>::empty(),
    {
        DKGStateMachine { message_queue: Vec::new() }
    }

    /// Processes a received message.
    ///
    /// An error does not mean that the protocol has to be aborted: that is so for a
    /// critical error only (see [`DKGError::is_critical`]). Any other error is to be
    /// reported, and the protocol goes on.
    pub fn handle_incoming<F: Fn(&[u8]) -> Result<(), String>>(
        &mut self,
        parse: F,
        msg: Msg<T>,
    ) -> (result: Result<(), DKGError>)
        requires
            msg.body.can_handle(),
            forall|json: &[u8]| #[trigger] call_requires(parse, (json,)),
        ensures
            msg.body.handled(parser_relation(parse), old(self)@, final(self)@, result),
    {
        msg.body.handle(parse, &mut self.message_queue)
    }

    /// The queue of messages to be sent. Whoever sends a message takes it out.
    pub fn message_queue(&mut self) -> (queue: &mut Vec<Msg<T>>)
        ensures
            queue@ == old(self)@,
            final(self)@ == final(queue)@,
    {
        &mut self.message_queue
    }

    /// Performs expensive computation. None is required, so this succeeds and changes
    /// nothing.
    pub fn proceed(&mut self) -> (result: Result<(), DKGError>)
        ensures
            result is Ok,
            *final(self) == *old(self),
    {
        Ok(())
    }
}

} // verus!
