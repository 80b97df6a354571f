//! Running the stages of the protocol side by side.
//!
//! The node drives the three protocols and the stream of their outgoing messages, and
//! reports what happens as a [`MetaEvent`]. The handler answers with what to do.
use super::state_machines::{KeygenStateMachine, OfflineStateMachine, VotingStateMachine};
use crate::types::{DKGError, DKGMessage};
use vstd::prelude::*;

verus! {

/// A future that can be driven on any thread and ends with a result of the protocol.
pub trait SendFuture: std::future::Future<Output = Result<(), DKGError>> + Send {

}

impl<T> SendFuture for T where T: std::future::Future<Output = Result<(), DKGError>> + Send {

}

/// The protocols and whether one of their parts has ended. A handler runs until the
/// first of them does.
#[derive(Debug, PartialEq, Eq)]
pub struct MetaDKGMessageHandler {
    pub keygen: KeygenStateMachine,
    pub offline: OfflineStateMachine,
    pub voting: VotingStateMachine,
    pub finished: bool,
}

/// What happened in the node.
#[derive(Debug, PartialEq, Eq)]
pub enum MetaEvent {
    KeygenEnded,
    OfflineEnded,
    VotingEnded,
    /// The next outgoing message of the three protocols, or the end of the stream.
    Outgoing(Option<DKGMessage>),
}

/// What the node has to do.
#[derive(Debug, PartialEq, Eq)]
pub enum MetaAction {
    /// Sign the messages and send them to the other parties.
    SignAndSend(Vec<DKGMessage>),
    /// Stop with `result`. `outbound` is the error of the stream of outgoing messages,
    /// if it was the stream that ended; it is only to be reported.
    Finish { outbound: Option<DKGError>, result: Result<(), DKGError> },
}

/// The handler goes on after `event`.
pub open spec fn goes_on(event: MetaEvent) -> bool {
    event matches MetaEvent::Outgoing(Some(_))
}

/// `action` is the right one after `event`.
pub open spec fn answers(event: MetaEvent, action: MetaAction) -> bool {
    match event {
        MetaEvent::Outgoing(Some(msg)) => {
            &&& action is SignAndSend
            &&& action->SignAndSend_0@ == seq![msg]
        },
        MetaEvent::Outgoing(None) => {
            &&& action is Finish
            &&& action->result is Ok
            &&& action->outbound is Some
            &&& action->outbound->0 is CriticalError
            &&& action->outbound->0.text() == "Outbound stream stopped producing items"@
        },
        _ => {
            &&& action is Finish
            &&& action->result is Ok
            &&& action->outbound is None
        },
    }
}

impl MetaDKGMessageHandler {
    /// A handler with all protocols running.
    pub fn new() -> (handler: Self)
        ensures
            !handler.finished,
    {
        MetaDKGMessageHandler {
            keygen: KeygenStateMachine {  },
            offline: OfflineStateMachine {  },
            voting: VotingStateMachine,
            finished: false,
        }
    }

    /// Decides what to do after `event`. Whichever part ends first ends the handler, and
    /// that is no failure. A handler that has finished takes no more events.
    pub fn on_event(&mut self, event: MetaEvent) -> (action: MetaAction)
        requires
            !old(self).finished,
        ensures
            answers(event, action),
            final(self).finished == !goes_on(event),
            final(self).keygen == old(self).keygen,
            final(self).offline == old(self).offline,
            final(self).voting == old(self).voting,
    {
        match event {
            MetaEvent::Outgoing(Some(msg)) => {
                let mut batch: Vec<DKGMessage> = Vec::new();
                batch.push(msg);
                assert(batch@ =~= seq![msg]);
                MetaAction::SignAndSend(batch)
            },
            MetaEvent::Outgoing(None) => {
                self.finished = true;
                let stopped = DKGError::CriticalError {
                    reason: "Outbound stream stopped producing items".to_string(),
                };
                MetaAction::Finish { outbound: Some(stopped), result: Ok(()) }
            },
            _ => {
                self.finished = true;
                MetaAction::Finish { outbound: None, result: Ok(()) }
            },
        }
    }
}

/// The outgoing messages up to the first event that ends the handler.
pub open spec fn outgoing_before_end(events: Seq<MetaEvent>) -> Seq<DKGMessage>
    decreases events.len(),
{
    if events.len() == 0 {
        Seq::empty()
    } else {
        match events[0] {
            MetaEvent::Outgoing(Some(msg)) => seq![msg] + outgoing_before_end(events.skip(1)),
            _ => Seq::empty(),
        }
    }
}

/// The messages that a sequence of actions signs and sends.
pub open spec fn sent(actions: Seq<MetaAction>) -> Seq<DKGMessage>
    decreases actions.len(),
{
    if actions.len() == 0 {
        Seq::empty()
    } else {
        let first = match actions[0] {
            MetaAction::SignAndSend(batch) => batch@,
            _ => Seq::empty(),
        };
        first + sent(actions.skip(1))
    }
}

/// `actions` are answers to the first of `events`, one each, and only the last of these
/// events may have ended the handler. They cover all events unless one ended it.
pub open spec fn is_run(events: Seq<MetaEvent>, actions: Seq<MetaAction>) -> bool {
    &&& actions.len() <= events.len()
    &&& forall|i: int| 0 <= i < actions.len() ==> answers(events[i], #[trigger] actions[i])
    &&& forall|i: int| 0 <= i < actions.len() - 1 ==> goes_on(#[trigger] events[i])
    &&& actions.len() < events.len() ==> actions.len() > 0 && !goes_on(events[actions.len() - 1])
}

/// Until the first part ends, every outgoing message is signed and sent, once and in
/// order; after that none is. A run fails with no error.
pub proof fn law_sends_each_message_once(events: Seq<MetaEvent>, actions: Seq<MetaAction>)
    requires
        is_run(events, actions),
    ensures
        sent(actions) == outgoing_before_end(events),
        forall|i: int|
            0 <= i < actions.len() && #[trigger] actions[i] is Finish ==> i == actions.len() - 1
                && actions[i]->result is Ok,
    decreases events.len(),
{
    if actions.len() == 0 {
        assert(events.len() == 0);
    } else {
        assert(answers(events[0], actions[0]));
        let rest = actions.skip(1);
        if goes_on(events[0]) {
            let later = events.skip(1);
            assert forall|i: int| 0 <= i < rest.len() implies answers(
                later[i],
                #[trigger] rest[i],
            ) by {
                assert(answers(events[i + 1], actions[i + 1]));
            }
            assert forall|i: int| 0 <= i < rest.len() - 1 implies goes_on(#[trigger] later[i]) by {
                assert(goes_on(events[i + 1]));
            }
            assert(is_run(later, rest));
            law_sends_each_message_once(later, rest);
        } else {
            assert(actions.len() == 1);
            assert(rest =~= Seq::<MetaAction>::empty());
            assert(sent(rest) =~= Seq::<DKGMessage>::empty());
            assert(sent(actions) =~= Seq::<DKGMessage>::empty());
        }
        assert forall|i: int| 0 <= i < actions.len() && #[trigger] actions[i] is Finish implies i
            == actions.len() - 1 && actions[i]->result is Ok by {
            assert(answers(events[i], actions[i]));
            if i < actions.len() - 1 {
                assert(goes_on(events[i]));
            }
        }
    }
}

} // verus!
