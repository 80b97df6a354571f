//! What becomes of the messages that a party of the protocol receives and sends.
//!
//! The channels and their wakers belong to the node. It hands over what it took from
//! a channel, or what a channel answered, and does what is decided here.
use crate::signers::{unregistered_signer, verify_signature_against_authorities};
use crate::types::{AccountId32, DKGError, DKGMessage, DKGMsgPayload, Msg, SignedDKGMessage};
use vstd::prelude::*;
use vstd::string::StringExecFns;

pub mod meta_channel;
pub mod state_machine;
pub mod state_machines;

verus! {

/// A message as it comes from the network, which may become one of the protocol.
pub trait TransformIncoming: Sized {
    /// The body of the protocol message.
    type IncomingMapped;

    /// The message is one that can be transformed at all.
    spec fn can_transform(self) -> bool;

    /// Admits the message as one from party `party_index`, or turns it away.
    fn transform(
        self,
        party_index: u16,
        active: &[AccountId32],
        next: &[AccountId32],
    ) -> Result<Msg<Self::IncomingMapped>, DKGError>
        requires
            self.can_transform(),
    ;
}

impl TransformIncoming for SignedDKGMessage {
    type IncomingMapped = DKGMessage;

    open spec fn can_transform(self) -> bool {
        self.msg.encodable()
    }

    /// A message is admitted, as a broadcast, if one of the authorities signed it.
    fn transform(
        self,
        party_index: u16,
        active: &[AccountId32],
        next: &[AccountId32],
    ) -> (admitted: Result<Msg<DKGMessage>, DKGError>)
        ensures
            admitted is Ok <==> self.is_authorized(active@, next@),
            admitted matches Ok(msg) ==> msg == (Msg {
                sender: party_index,
                receiver: None,
                body: self.msg,
            }),
            admitted matches Err(error) ==> error.is_generic(unregistered_signer()),
    {
        match verify_signature_against_authorities(self, active, next) {
            Ok(body) => Ok(Msg { sender: party_index, receiver: None, body }),
            Err(error) => Err(error),
        }
    }
}

/// A message of the protocol, which may become one for the network.
pub trait TransformOutgoing: Sized {
    /// The message for the network.
    type Output;

    fn transform(self) -> Result<Self::Output, DKGError>;
}

/// The next item of the stream of incoming messages, once the channel gave `received`.
/// The stream ends with the channel.
pub fn incoming_item<T: TransformIncoming>(
    received: Option<T>,
    party_index: u16,
    active: &[AccountId32],
    next: &[AccountId32],
) -> (item: Option<Result<Msg<T::IncomingMapped>, DKGError>>)
    requires
        received matches Some(msg) ==> msg.can_transform(),
    ensures
        match received {
            None => item is None,
            Some(msg) => item is Some && call_ensures(
                T::transform,
                (msg, party_index, active, next),
                item->0,
            ),
        },
{
    match received {
        Some(msg) => Some(msg.transform(party_index, active, next)),
        None => None,
    }
}

/// What to do with a message on its way out.
#[derive(Debug, PartialEq, Eq)]
pub enum OutgoingStep<O> {
    /// Hand the message to the channel.
    Send(O),
    /// Report the error and go on without the message.
    Skip(DKGError),
}

/// A message that could be transformed is sent; one that could not is skipped.
pub open spec fn outgoing_step_for<O>(transformed: Result<O, DKGError>) -> OutgoingStep<O> {
    match transformed {
        Ok(item) => OutgoingStep::Send(item),
        Err(error) => OutgoingStep::Skip(error),
    }
}

/// Decides about a message by the outcome of its transformation.
pub fn outgoing_step<O>(transformed: Result<O, DKGError>) -> (step: OutgoingStep<O>)
    ensures
        step == outgoing_step_for(transformed),
{
    match transformed {
        Ok(item) => OutgoingStep::Send(item),
        Err(error) => OutgoingStep::Skip(error),
    }
}

/// Transforms a message on its way out and decides about it.
pub fn start_send<T: TransformOutgoing>(item: Msg<T>) -> (step: OutgoingStep<T::Output>)
    ensures
        exists|transformed: Result<T::Output, DKGError>|
            {
                &&& #[trigger] call_ensures(T::transform, (item.body,), transformed)
                &&& step == outgoing_step_for(transformed)
            },
{
    let transformed = item.body.transform();
    outgoing_step(transformed)
}

/// The result of an operation on the channel of outgoing messages, where `answer` is
/// what the channel said.
pub fn sink_result(answer: Result<(), String>) -> (result: Result<(), DKGError>)
    ensures
        match answer {
            Ok(()) => result is Ok,
            Err(reason) => result == Err::<(), DKGError>(DKGError::GenericError { reason }),
        },
{
    match answer {
        Ok(()) => Ok(()),
        Err(reason) => Err(DKGError::GenericError { reason }),
    }
}

/// The result of sending: `sent` is what the channel said, or `None` if the message was
/// skipped. A skipped message is no failure.
pub fn send_result(sent: Option<Result<(), String>>) -> (result: Result<(), DKGError>)
    ensures
        match sent {
            None => result is Ok,
            Some(Ok(())) => result is Ok,
            Some(Err(reason)) => result == Err::<(), DKGError>(DKGError::GenericError { reason }),
        },
{
    match sent {
        None => Ok(()),
        Some(answer) => sink_result(answer),
    }
}

/// What the parser `parse` may say of a JSON text.
pub open spec fn parser_relation<F: Fn(&[u8]) -> Result<(), String>>(parse: F) -> spec_fn(
    Seq<u8>,
    Result<(), String>,
) -> bool {
    |json: Seq<u8>, parsed: Result<(), String>|
        exists|text: &[u8]| text@ == json && #[trigger] call_ensures(parse, (text,), parsed)
}

/// A message of the protocol that a state machine can take in.
///
/// `F` is the type of the node's parser of key generation messages: it says whether the
/// JSON text is one, or why not. The parser is a parameter because the deserialiser of
/// the proofs in such a message panics on a malformed number; what the node makes of that
/// is left to it.
pub trait MappedIncomingHandler: Sized {
    /// The message is one that can be handled at all.
    spec fn can_handle(self) -> bool;

    /// Handling the message turned the queue `before` into `after`, with `result`, where
    /// `parses` relates a JSON text to what the parser may say of it.
    spec fn handled(
        self,
        parses: spec_fn(Seq<u8>, Result<(), String>) -> bool,
        before: Seq<Msg<Self>>,
        after: Seq<Msg<Self>>,
        result: Result<(), DKGError>,
    ) -> bool;

    fn handle<F: Fn(&[u8]) -> Result<(), String>>(
        self,
        parse: F,
        message_queue: &mut Vec<Msg<Self>>,
    ) -> (result: Result<(), DKGError>)
        requires
            self.can_handle(),
            forall|json: &[u8]| #[trigger] call_requires(parse, (json,)),
        ensures
            self.handled(
                parser_relation(parse),
                old(message_queue)@,
                final(message_queue)@,
                result,
            ),
    ;
}

/// `result` is that of handling a key generation message that was parsed with the
/// outcome `parsed`.
pub open spec fn is_keygen_result(
    parsed: Result<(), String>,
    result: Result<(), DKGError>,
) -> bool {
    match parsed {
        Ok(()) => result is Ok,
        Err(reason) => result is Err && result->Err_0.is_generic(
            "Error deserializing keygen msg, reason: "@ + reason@,
        ),
    }
}

/// Handles a key generation message by the outcome of parsing it.
pub fn keygen_result(parsed: Result<(), String>) -> (result: Result<(), DKGError>)
    ensures
        is_keygen_result(parsed, result),
{
    match parsed {
        Ok(()) => Ok(()),
        Err(reason) => Err(
            DKGError::GenericError {
                reason: "Error deserializing keygen msg, reason: ".to_string().concat(
                    reason.as_str(),
                ),
            },
        ),
    }
}

impl MappedIncomingHandler for DKGMessage {
    /// The offline and the voting stage take in no messages.
    open spec fn can_handle(self) -> bool {
        self.payload is Keygen || self.payload is Other
    }

    /// The bytes of a key generation message are parsed, and that they can be is all
    /// that is asked of them. A payload of no stage is an error. The queue stays as it is.
    open spec fn handled(
        self,
        parses: spec_fn(Seq<u8>, Result<(), String>) -> bool,
        before: Seq<Msg<Self>>,
        after: Seq<Msg<Self>>,
        result: Result<(), DKGError>,
    ) -> bool {
        &&& after == before
        &&& match self.payload {
            DKGMsgPayload::Keygen(msg) => exists|parsed: Result<(), String>|
                {
                    &&& #[trigger] parses(msg.keygen_msg@, parsed)
                    &&& is_keygen_result(parsed, result)
                },
            DKGMsgPayload::Other(other) => result is Err && result->Err_0.is_generic(
                other.description@ + " "@,
            ),
            _ => true,
        }
    }

    fn handle<F: Fn(&[u8]) -> Result<(), String>>(
        self,
        parse: F,
        message_queue: &mut Vec<Msg<Self>>,
    ) -> (result: Result<(), DKGError>) {
        match self.payload {
            DKGMsgPayload::Keygen(msg) => {
                let parsed = parse(msg.keygen_msg.as_slice());
                assert(parser_relation(parse)(msg.keygen_msg@, parsed));
                keygen_result(parsed)
            },
            DKGMsgPayload::Other(other) => Err(
                DKGError::GenericError { reason: other.description.concat(" ") },
            ),
            _ => Ok(()),
        }
    }
}

/// What a peer sends cannot stop the protocol: an error in handling a message is never
/// critical, and neither handling nor refusing it adds to what is to be sent.
pub proof fn law_peers_cannot_abort(
    msg: DKGMessage,
    parses: spec_fn(Seq<u8>, Result<(), String>) -> bool,
    before: Seq<Msg<DKGMessage>>,
    after: Seq<Msg<DKGMessage>>,
    result: Result<(), DKGError>,
)
    requires
        msg.can_handle(),
        msg.handled(parses, before, after, result),
    ensures
        after == before,
        result matches Err(error) ==> !(error is CriticalError),
{
}

} // verus!
