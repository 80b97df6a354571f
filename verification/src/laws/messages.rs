//! Laws of receiving and sending.
use super::signatures::survivable;
use crate::async_protocol_handlers::meta_channel::{MetaAction, MetaDKGMessageHandler, MetaEvent};
use crate::async_protocol_handlers::state_machine::DKGStateMachine;
use crate::async_protocol_handlers::{
    keygen_result, outgoing_step, send_result, sink_result, start_send, MappedIncomingHandler,
    OutgoingStep, TransformOutgoing,
};
use crate::types::{DKGError, DKGMessage, DKGMsgPayload, Msg};
use vstd::prelude::*;

verus! {

/// Whatever `parse` says of the bytes `json` is that they are a key generation message.
pub open spec fn accepts<F: Fn(&[u8]) -> Result<(), String>>(parse: F, json: Seq<u8>) -> bool {
    forall|text: &[u8], parsed: Result<(), String>|
        text@ == json && #[trigger] call_ensures(parse, (text,), parsed) ==> parsed is Ok
}

/// Whatever `parse` says of the bytes `json` is that they are no key generation message,
/// for the given reason.
pub open spec fn refuses<F: Fn(&[u8]) -> Result<(), String>>(
    parse: F,
    json: Seq<u8>,
    reason: Seq<char>,
) -> bool {
    forall|text: &[u8], parsed: Result<(), String>|
        text@ == json && #[trigger] call_ensures(parse, (text,), parsed) ==> parsed is Err
            && parsed->Err_0@ == reason
}

/// Key generation messages and those of no stage can be handled, whoever sent them and in
/// whichever round.
pub proof fn law_what_can_be_handled<F: Fn(&[u8]) -> Result<(), String>>(
    machine: &mut DKGStateMachine<DKGMessage>,
    queue: &mut Vec<Msg<DKGMessage>>,
    parse: F,
    msg: Msg<DKGMessage>,
)
    requires
        forall|json: &[u8]| #[trigger] call_requires(parse, (json,)),
        msg.body.payload is Keygen || msg.body.payload is Other,
    ensures
        call_requires(
            <DKGMessage as MappedIncomingHandler>::handle::<F>,
            (msg.body, parse, queue),
        ),
        call_requires(
            DKGStateMachine::<DKGMessage>::handle_incoming::<F>,
            (machine, parse, msg),
        ),
{
}

/// A key generation message is handled if the parser takes its bytes, and is an error that
/// ends with the parser's reason if not. Neither its sender nor its round plays a role. The
/// queue stays as it is.
pub proof fn law_keygen_messages_are_parsed<F: Fn(&[u8]) -> Result<(), String>>(
    msg: DKGMessage,
    parse: F,
    queue: &mut Vec<Msg<DKGMessage>>,
    json: Seq<u8>,
    reason: Seq<char>,
    result: Result<(), DKGError>,
)
    requires
        call_ensures(
            <DKGMessage as MappedIncomingHandler>::handle::<F>,
            (msg, parse, queue),
            result,
        ),
        msg.payload is Keygen,
        json == msg.payload->Keygen_0.keygen_msg@,
    ensures
        accepts(parse, json) ==> result is Ok,
        refuses(parse, json, reason) ==> result is Err && survivable(
            result->Err_0,
            "Error deserializing keygen msg, reason: "@ + reason,
        ),
        result is Err ==> exists|text: &[u8], parsed: Result<(), String>|
            {
                &&& text@ == json
                &&& #[trigger] call_ensures(parse, (text,), parsed)
                &&& parsed is Err
                &&& survivable(
                    result->Err_0,
                    "Error deserializing keygen msg, reason: "@ + parsed->Err_0@,
                )
            },
        result is Ok ==> exists|text: &[u8], parsed: Result<(), String>|
            text@ == json && #[trigger] call_ensures(parse, (text,), parsed) && parsed is Ok,
        final(queue)@ == old(queue)@,
{
}

/// Two key generation messages with the same bytes are handled alike by a parser that
/// decides by the bytes, whoever sent them, in whichever rounds, and whatever is queued.
pub proof fn law_same_bytes_same_result<F: Fn(&[u8]) -> Result<(), String>>(
    first: DKGMessage,
    second: DKGMessage,
    parse: F,
    queue: &mut Vec<Msg<DKGMessage>>,
    other_queue: &mut Vec<Msg<DKGMessage>>,
    result: Result<(), DKGError>,
    other_result: Result<(), DKGError>,
)
    requires
        call_ensures(
            <DKGMessage as MappedIncomingHandler>::handle::<F>,
            (first, parse, queue),
            result,
        ),
        call_ensures(
            <DKGMessage as MappedIncomingHandler>::handle::<F>,
            (second, parse, other_queue),
            other_result,
        ),
        first.payload is Keygen,
        second.payload is Keygen,
        first.payload->Keygen_0.keygen_msg@ == second.payload->Keygen_0.keygen_msg@,
        forall|a: &[u8], b: &[u8], p: Result<(), String>, q: Result<(), String>|
            a@ == b@ && #[trigger] call_ensures(parse, (a,), p) && #[trigger] call_ensures(
                parse,
                (b,),
                q,
            ) ==> p == q,
    ensures
        result is Ok <==> other_result is Ok,
        result is Err ==> exists|text: Seq<char>| #[trigger]
            survivable(result->Err_0, text) && survivable(other_result->Err_0, text),
{
    let json = first.payload->Keygen_0.keygen_msg@;
    law_keygen_messages_are_parsed(first, parse, queue, json, Seq::empty(), result);
    law_keygen_messages_are_parsed(second, parse, other_queue, json, Seq::empty(), other_result);
}

/// A message of no stage is an error that says what it is, whatever it holds, and the
/// parser is not asked. The queue stays as it is.
pub proof fn law_other_messages_are_refused<F: Fn(&[u8]) -> Result<(), String>>(
    msg: DKGMessage,
    parse: F,
    queue: &mut Vec<Msg<DKGMessage>>,
    result: Result<(), DKGError>,
)
    requires
        call_ensures(
            <DKGMessage as MappedIncomingHandler>::handle::<F>,
            (msg, parse, queue),
            result,
        ),
        msg.payload is Other,
    ensures
        result is Err,
        survivable(result->Err_0, msg.payload->Other_0.description@ + " "@),
        final(queue)@ == old(queue)@,
{
}

/// A party handles what it receives by the message alone: neither who sent it nor to whom
/// plays a role, and what the party has still to send stays as it is.
pub proof fn law_parties_handle_the_body<F: Fn(&[u8]) -> Result<(), String>>(
    machine: &mut DKGStateMachine<DKGMessage>,
    parse: F,
    msg: Msg<DKGMessage>,
    reason: Seq<char>,
    result: Result<(), DKGError>,
)
    requires
        call_ensures(
            DKGStateMachine::<DKGMessage>::handle_incoming::<F>,
            (machine, parse, msg),
            result,
        ),
    ensures
        final(machine)@ == old(machine)@,
        match msg.body.payload {
            DKGMsgPayload::Keygen(keygen) => {
                &&& accepts(parse, keygen.keygen_msg@) ==> result is Ok
                &&& refuses(parse, keygen.keygen_msg@, reason) ==> result is Err && survivable(
                    result->Err_0,
                    "Error deserializing keygen msg, reason: "@ + reason,
                )
                &&& result is Ok ==> exists|text: &[u8], parsed: Result<(), String>|
                    {
                        &&& text@ == keygen.keygen_msg@
                        &&& #[trigger] call_ensures(parse, (text,), parsed)
                        &&& parsed is Ok
                    }
            },
            DKGMsgPayload::Other(other) => result is Err && survivable(
                result->Err_0,
                other.description@ + " "@,
            ),
            _ => true,
        },
{
}

/// A new party has nothing to send, and whoever works on its queue works on what the party
/// has still to send.
pub proof fn law_queue_is_what_is_to_be_sent<T: MappedIncomingHandler>(
    machine: &mut DKGStateMachine<T>,
    queue: &mut Vec<Msg<T>>,
)
    requires
        call_ensures(DKGStateMachine::<T>::message_queue, (machine,), queue),
    ensures
        call_ensures(DKGStateMachine::<T>::new, (), *old(machine)) ==> old(queue)@.len() == 0,
        old(queue)@ == old(machine)@,
        final(queue)@ == final(machine)@,
        call_requires(DKGStateMachine::<T>::new, ()),
        call_requires(DKGStateMachine::<T>::message_queue, (machine,)),
{
}

/// Proceeding succeeds and changes nothing.
pub proof fn law_proceeding_is_free<T: MappedIncomingHandler>(
    machine: &mut DKGStateMachine<T>,
    result: Result<(), DKGError>,
)
    requires
        call_ensures(DKGStateMachine::<T>::proceed, (machine,), result),
    ensures
        result is Ok,
        *final(machine) == *old(machine),
        call_requires(DKGStateMachine::<T>::proceed, (machine,)),
{
}

/// What the parser says decides about a key generation message, for every reason that it
/// may give.
pub proof fn law_parser_decides(parsed: Result<(), String>, result: Result<(), DKGError>)
    requires
        call_ensures(keygen_result, (parsed,), result),
    ensures
        match parsed {
            Ok(()) => result is Ok,
            Err(reason) => result is Err && survivable(
                result->Err_0,
                "Error deserializing keygen msg, reason: "@ + reason@,
            ),
        },
        call_requires(keygen_result, (parsed,)),
{
}

/// Only a critical error is critical, whatever it says.
pub proof fn law_critical_errors_are_told_apart(error: DKGError, critical: bool)
    requires
        call_ensures(DKGError::is_critical, (&error,), critical),
    ensures
        match error {
            DKGError::CriticalError { .. } => critical,
            DKGError::GenericError { .. } => !critical,
        },
        call_requires(DKGError::is_critical, (&error,)),
{
}

/// What was transformed is sent as it is, and nothing else is.
pub proof fn law_transformed_messages_are_sent<O>(
    transformed: Result<O, DKGError>,
    step: OutgoingStep<O>,
)
    requires
        call_ensures(outgoing_step::<O>, (transformed,), step),
    ensures
        match transformed {
            Ok(item) => step is Send && step->Send_0 == item,
            Err(error) => step is Skip && step->Skip_0 == error,
        },
        call_requires(outgoing_step::<O>, (transformed,)),
{
}

/// A message on its way out is sent as its body was transformed, or skipped with the error
/// of the transformation. Neither its sender nor its receiver plays a role.
pub proof fn law_outgoing_bodies_are_transformed<T: TransformOutgoing>(
    item: Msg<T>,
    step: OutgoingStep<T::Output>,
)
    requires
        call_ensures(start_send::<T>, (item,), step),
    ensures
        match step {
            OutgoingStep::Send(output) => call_ensures(
                <T as TransformOutgoing>::transform,
                (item.body,),
                Ok::<T::Output, DKGError>(output),
            ),
            OutgoingStep::Skip(error) => call_ensures(
                <T as TransformOutgoing>::transform,
                (item.body,),
                Err::<T::Output, DKGError>(error),
            ),
        },
        call_requires(start_send::<T>, (item,)),
{
}

/// The channel's answer is the result, its reason that of an error which the protocol
/// survives.
pub proof fn law_channel_decides(
    answer: Result<(), String>,
    sent: Option<Result<(), String>>,
    result: Result<(), DKGError>,
)
    ensures
        call_ensures(sink_result, (answer,), result) ==> match answer {
            Ok(()) => result is Ok,
            Err(reason) => result is Err && survivable(result->Err_0, reason@),
        },
        call_ensures(send_result, (sent,), result) ==> match sent {
            None => result is Ok,
            Some(Ok(())) => result is Ok,
            Some(Err(reason)) => result is Err && survivable(result->Err_0, reason@),
        },
        call_requires(sink_result, (answer,)),
        call_requires(send_result, (sent,)),
{
}

/// A new handler runs, and takes whatever event comes.
pub proof fn law_new_handlers_run(handler: &mut MetaDKGMessageHandler, event: MetaEvent)
    ensures
        call_requires(MetaDKGMessageHandler::new, ()),
        call_ensures(MetaDKGMessageHandler::new, (), *old(handler)) ==> !old(handler).finished,
        !old(handler).finished ==> call_requires(
            MetaDKGMessageHandler::on_event,
            (handler, event),
        ),
{
}

/// Every outgoing message is to be signed and sent, alone and as it is, and the handler
/// runs on. Any other event ends it without failure, and only the end of the stream of
/// outgoing messages is reported. The protocols themselves are left alone.
pub proof fn law_handlers_send_until_the_first_end(
    handler: &mut MetaDKGMessageHandler,
    event: MetaEvent,
    action: MetaAction,
)
    requires
        call_ensures(MetaDKGMessageHandler::on_event, (handler, event), action),
    ensures
        match event {
            MetaEvent::Outgoing(Some(msg)) => {
                &&& !final(handler).finished
                &&& action is SignAndSend
                &&& action->SignAndSend_0@.len() == 1
                &&& action->SignAndSend_0@[0] == msg
            },
            MetaEvent::Outgoing(None) => {
                &&& final(handler).finished
                &&& action is Finish
                &&& action->result is Ok
                &&& match action->outbound {
                    Some(DKGError::CriticalError { reason }) => reason@
                        == "Outbound stream stopped producing items"@,
                    _ => false,
                }
            },
            MetaEvent::KeygenEnded | MetaEvent::OfflineEnded | MetaEvent::VotingEnded => {
                &&& final(handler).finished
                &&& action is Finish
                &&& action->result is Ok
                &&& action->outbound is None
            },
        },
        final(handler).keygen == old(handler).keygen,
        final(handler).offline == old(handler).offline,
        final(handler).voting == old(handler).voting,
{
}

} // verus!
