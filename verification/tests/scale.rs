use dkg_gadget::types::{
    DKGKeygenMessage, DKGMessage, DKGMsgPayload, DKGOfflineMessage, DKGVoteMessage, OtherPayload,
    Public,
};

fn message(payload: DKGMsgPayload, round_id: u64) -> DKGMessage {
    DKGMessage { id: Public { bytes: [9; 33] }, payload, round_id }
}

fn keygen(body: Vec<u8>, round_id: u64) -> DKGMessage {
    message(DKGMsgPayload::Keygen(DKGKeygenMessage { keygen_msg: body }), round_id)
}

#[test]
fn short_message_is_encoded_field_by_field() {
    let mut expected = vec![9u8; 33];
    expected.extend_from_slice(&[0, 12, 1, 2, 3]);
    expected.extend_from_slice(&[8, 7, 6, 5, 4, 3, 2, 1]);
    assert_eq!(keygen(vec![1, 2, 3], 0x0102_0304_0506_0708).encode(), expected);
}

#[test]
fn every_payload_kind_has_its_own_number() {
    let offline = message(
        DKGMsgPayload::Offline(DKGOfflineMessage { offline_msg: vec![5] }),
        0,
    );
    let vote = message(DKGMsgPayload::Vote(DKGVoteMessage { vote_msg: vec![5] }), 0);
    let other = message(
        DKGMsgPayload::Other(OtherPayload {
            kind: 4,
            body: vec![5],
            description: "Misbehaviour".to_string(),
        }),
        0,
    );
    assert_eq!(keygen(vec![5], 0).encode()[33..36], [0, 4, 5]);
    assert_eq!(offline.encode()[33..36], [1, 4, 5]);
    assert_eq!(vote.encode()[33..36], [2, 4, 5]);
    assert_eq!(other.encode()[33..36], [4, 4, 5]);
}

#[test]
fn length_prefix_grows_with_the_payload() {
    let one = keygen(vec![0; 63], 0).encode();
    assert_eq!(one[34], 252);
    assert_eq!(one.len(), 33 + 1 + 1 + 63 + 8);
    let two = keygen(vec![0; 64], 0).encode();
    assert_eq!(two[34..36], [1, 1]);
    assert_eq!(two.len(), 33 + 1 + 2 + 64 + 8);
    let two_max = keygen(vec![0; 16383], 0).encode();
    assert_eq!(two_max[34..36], [0xfd, 0xff]);
    let four = keygen(vec![0; 16384], 0).encode();
    assert_eq!(four[34..38], [2, 0, 1, 0]);
    assert_eq!(four.len(), 33 + 1 + 4 + 16384 + 8);
}

#[test]
fn empty_payload_is_encoded() {
    let bytes = keygen(Vec::new(), 1).encode();
    assert_eq!(bytes[33..], [0, 0, 1, 0, 0, 0, 0, 0, 0, 0]);
}

#[test]
fn different_messages_have_different_bytes() {
    let base = keygen(vec![1, 2], 3);
    assert_ne!(base.encode(), keygen(vec![1, 2], 4).encode());
    assert_ne!(base.encode(), keygen(vec![1, 2, 0], 3).encode());
    let vote = message(DKGMsgPayload::Vote(DKGVoteMessage { vote_msg: vec![1, 2] }), 3);
    assert_ne!(base.encode(), vote.encode());
}

#[test]
fn ordinary_messages_are_encodable() {
    assert!(keygen(vec![1, 2], 3).is_encodable());
    assert!(keygen(vec![0; 16384], 3).is_encodable());
}

#[test]
fn other_payloads_keep_off_the_kinds_of_the_stages() {
    for (kind, encodable) in [(0u8, false), (1, false), (2, false), (3, true), (255, true)] {
        let other = message(
            DKGMsgPayload::Other(OtherPayload {
                kind,
                body: vec![5],
                description: "Other".to_string(),
            }),
            0,
        );
        assert_eq!(other.is_encodable(), encodable);
    }
}
