use dkg_gadget::async_protocol_handlers::meta_channel::{
    MetaAction, MetaDKGMessageHandler, MetaEvent,
};
use dkg_gadget::async_protocol_handlers::state_machine::DKGStateMachine;
use dkg_gadget::async_protocol_handlers::{
    keygen_result, outgoing_step, send_result, sink_result, start_send, MappedIncomingHandler,
    OutgoingStep, TransformOutgoing,
};
use dkg_gadget::types::{
    DKGError, DKGKeygenMessage, DKGMessage, DKGMsgPayload, Msg, OtherPayload, Public,
};
use multi_party_ecdsa::protocols::multi_party_ecdsa::gg_2020::state_machine::keygen::{
    Keygen, ProtocolMessage,
};
use round_based::StateMachine;

fn generic(reason: &str) -> DKGError {
    DKGError::GenericError { reason: reason.to_string() }
}

fn critical(reason: &str) -> DKGError {
    DKGError::CriticalError { reason: reason.to_string() }
}

fn message(payload: DKGMsgPayload) -> DKGMessage {
    DKGMessage { id: Public { bytes: [0; 33] }, payload, round_id: 1 }
}

fn keygen(json: &[u8]) -> DKGMessage {
    message(DKGMsgPayload::Keygen(DKGKeygenMessage { keygen_msg: json.to_vec() }))
}

fn broadcast(body: DKGMessage) -> Msg<DKGMessage> {
    Msg { sender: 1, receiver: None, body }
}

fn parse(json: &[u8]) -> Result<(), String> {
    match serde_json::from_slice::<round_based::Msg<ProtocolMessage>>(json) {
        Ok(_) => Ok(()),
        Err(error) => Err(error.to_string()),
    }
}

struct Word(Option<u8>);

impl TransformOutgoing for Word {
    type Output = u8;

    fn transform(self) -> Result<u8, DKGError> {
        self.0.ok_or(generic("no word"))
    }
}

#[test]
fn only_critical_errors_are_critical() {
    assert!(critical("stop").is_critical());
    assert!(!generic("go on").is_critical());
}

#[test]
fn outgoing_messages_are_sent_or_skipped() {
    assert_eq!(outgoing_step(Ok(1u8)), OutgoingStep::Send(1));
    assert_eq!(outgoing_step::<u8>(Err(critical("x"))), OutgoingStep::Skip(critical("x")));
    let sent = start_send(Msg { sender: 1, receiver: Some(2), body: Word(Some(8)) });
    assert_eq!(sent, OutgoingStep::Send(8));
    let skipped = start_send(Msg { sender: 1, receiver: None, body: Word(None) });
    assert_eq!(skipped, OutgoingStep::Skip(generic("no word")));
}

#[test]
fn channel_errors_become_generic_errors() {
    assert_eq!(sink_result(Ok(())), Ok(()));
    assert_eq!(sink_result(Err("gone".to_string())), Err(generic("gone")));
    assert_eq!(send_result(Some(Ok(()))), Ok(()));
    assert_eq!(send_result(Some(Err("full".to_string()))), Err(generic("full")));
}

#[test]
fn skipped_message_is_no_failure() {
    assert_eq!(send_result(None), Ok(()));
}

#[test]
fn outcome_of_parsing_decides_about_a_keygen_message() {
    assert_eq!(keygen_result(Ok(())), Ok(()));
    assert_eq!(
        keygen_result(Err("bad".to_string())),
        Err(generic("Error deserializing keygen msg, reason: bad"))
    );
}

#[test]
fn keygen_message_that_is_no_json_is_refused() {
    let mut queue = Vec::new();
    let result = keygen(b"{").handle(parse, &mut queue);
    assert_eq!(
        result,
        Err(generic(
            "Error deserializing keygen msg, reason: EOF while parsing an object at line 1 column 1"
        ))
    );
    assert!(queue.is_empty());
}

#[test]
fn keygen_message_with_a_foreign_body_is_refused() {
    let json = br#"{"sender":1,"receiver":null,"body":5}"#;
    let result = keygen(json).handle(parse, &mut Vec::new());
    let reason = parse(json).unwrap_err();
    let text = format!("Error deserializing keygen msg, reason: {}", reason);
    assert_eq!(result, Err(generic(&text)));
}

#[test]
fn parser_gets_the_bytes_of_the_message() {
    let echo = |json: &[u8]| -> Result<(), String> { Err(format!("{:?}", json)) };
    let result = keygen(&[7, 8]).handle(echo, &mut Vec::new());
    assert_eq!(result, Err(generic("Error deserializing keygen msg, reason: [7, 8]")));
}

#[test]
fn real_keygen_message_is_taken_in() {
    let mut party = Keygen::new(1, 1, 2).unwrap();
    party.proceed().unwrap();
    let json = serde_json::to_vec(&party.message_queue()[0]).unwrap();
    let mut machine = DKGStateMachine::new();
    let result = machine.handle_incoming(parse, broadcast(keygen(&json)));
    assert_eq!(result, Ok(()));
    assert!(machine.message_queue().is_empty());
}

#[test]
fn payload_of_no_stage_is_refused_with_its_description() {
    let other = message(DKGMsgPayload::Other(OtherPayload {
        kind: 3,
        body: vec![1],
        description: "PublicKeyBroadcast".to_string(),
    }));
    let mut machine = DKGStateMachine::new();
    machine.message_queue().push(broadcast(keygen(b"{}")));
    let result = machine.handle_incoming(parse, broadcast(other));
    assert_eq!(result, Err(generic("PublicKeyBroadcast ")));
    assert_eq!(machine.message_queue().len(), 1);
}

#[test]
fn queue_is_emptied_by_its_sender() {
    let mut machine: DKGStateMachine<DKGMessage> = DKGStateMachine::new();
    assert!(machine.message_queue().is_empty());
    machine.message_queue().push(broadcast(keygen(b"1")));
    assert_eq!(machine.message_queue().pop(), Some(broadcast(keygen(b"1"))));
    assert!(machine.message_queue().is_empty());
}

#[test]
fn proceeding_changes_nothing() {
    let mut machine: DKGStateMachine<DKGMessage> = DKGStateMachine::new();
    machine.message_queue().push(broadcast(keygen(b"1")));
    assert_eq!(machine.proceed(), Ok(()));
    assert_eq!(machine.message_queue().len(), 1);
}

#[test]
fn outgoing_messages_are_signed_and_sent_in_order() {
    let mut handler = MetaDKGMessageHandler::new();
    for json in [b"1", b"2", b"3"] {
        let action = handler.on_event(MetaEvent::Outgoing(Some(keygen(json))));
        assert_eq!(action, MetaAction::SignAndSend(vec![keygen(json)]));
        assert!(!handler.finished);
    }
}

#[test]
fn end_of_the_outgoing_stream_is_reported_and_ends_the_handler() {
    let mut handler = MetaDKGMessageHandler::new();
    let action = handler.on_event(MetaEvent::Outgoing(None));
    let stopped = critical("Outbound stream stopped producing items");
    assert_eq!(action, MetaAction::Finish { outbound: Some(stopped), result: Ok(()) });
    assert!(handler.finished);
}

#[test]
fn end_of_any_protocol_ends_the_handler() {
    for event in [MetaEvent::KeygenEnded, MetaEvent::OfflineEnded, MetaEvent::VotingEnded] {
        let mut handler = MetaDKGMessageHandler::new();
        let action = handler.on_event(event);
        assert_eq!(action, MetaAction::Finish { outbound: None, result: Ok(()) });
        assert!(handler.finished);
    }
}
