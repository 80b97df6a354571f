use dkg_gadget::async_protocol_handlers::{incoming_item, TransformIncoming};
use dkg_gadget::signers::{
    admit_message, check_signers, signer_keys, verify_signature_against_authorities,
    verify_encoded, verify_signer_from_set,
};
use dkg_gadget::types::{
    AccountId32, DKGError, DKGKeygenMessage, DKGMessage, DKGMsgPayload, Msg, Public,
    SignedDKGMessage,
};
use sp_core::{sr25519, Pair};

const REFUSED: &str = "Message signature is not from a registered authority or next authority";

fn pair(seed: u8) -> sr25519::Pair {
    sr25519::Pair::from_seed(&[seed; 32])
}

fn account(seed: u8) -> AccountId32 {
    AccountId32 { bytes: pair(seed).public().0 }
}

fn sign(seed: u8, data: &[u8]) -> Vec<u8> {
    pair(seed).sign(data).0.to_vec()
}

fn message() -> DKGMessage {
    DKGMessage {
        id: Public { bytes: [3; 33] },
        payload: DKGMsgPayload::Keygen(DKGKeygenMessage { keygen_msg: vec![1, 2, 3] }),
        round_id: 5,
    }
}

fn signed_by(seed: u8) -> SignedDKGMessage {
    let msg = message();
    let signature = Some(sign(seed, &msg.encode()));
    SignedDKGMessage { msg, signature }
}

fn refused() -> DKGError {
    DKGError::GenericError { reason: REFUSED.to_string() }
}

#[test]
fn signer_in_the_set_is_found() {
    let set = [account(1), account(2), account(3)];
    assert_eq!(check_signers(b"data", &sign(2, b"data"), &set), Ok(true));
    assert_eq!(check_signers(b"data", &sign(3, b"data"), &set), Ok(true));
}

#[test]
fn signer_outside_the_set_is_not_found() {
    let set = [account(1), account(2)];
    assert_eq!(check_signers(b"data", &sign(4, b"data"), &set), Ok(false));
    assert_eq!(check_signers(b"data", &sign(1, b"data"), &[]), Ok(false));
}

#[test]
fn signature_of_other_data_is_not_accepted() {
    let set = [account(1)];
    assert_eq!(check_signers(b"data", &sign(1, b"atad"), &set), Ok(false));
}

#[test]
fn signature_of_the_wrong_length_is_not_accepted() {
    let set = [account(1)];
    let signature = sign(1, b"data");
    assert_eq!(check_signers(b"data", &signature[..63], &set), Ok(false));
    assert_eq!(check_signers(b"data", &[], &set), Ok(false));
    let mut longer = sign(1, b"data");
    longer.push(0);
    assert_eq!(check_signers(b"data", &longer, &set), Ok(false));
}

#[test]
fn order_and_repetition_of_accounts_do_not_count() {
    let signature = sign(2, b"data");
    let sets = [
        vec![account(1), account(2)],
        vec![account(2), account(1)],
        vec![account(1), account(2), account(2), account(1)],
    ];
    for set in sets {
        assert_eq!(check_signers(b"data", &signature, &set), Ok(true));
    }
}

#[test]
fn encoded_accounts_become_keys() {
    let keys = signer_keys(&[vec![1; 32], vec![2; 32]]).unwrap();
    assert_eq!(keys, vec![[1; 32], [2; 32]]);
    assert_eq!(signer_keys(&[]), Ok(Vec::new()));
}

#[test]
fn account_of_another_length_is_no_key() {
    let error = DKGError::GenericError {
        reason: "Failed to convert account id to sr25519 public key".to_string(),
    };
    assert_eq!(signer_keys(&[vec![1; 32], vec![2; 31]]), Err(error));
}

#[test]
fn keys_are_tried_until_one_fits() {
    let keys = [account(1).bytes, account(2).bytes];
    assert!(verify_signer_from_set(&keys, b"data", &sign(2, b"data")));
    assert!(!verify_signer_from_set(&keys, b"data", &sign(3, b"data")));
}

#[test]
fn checks_of_both_sets_are_combined() {
    let failed = || DKGError::GenericError { reason: "failed".to_string() };
    assert_eq!(admit_message(message(), Err(failed()), Ok(true)), Err(failed()));
    assert_eq!(admit_message(message(), Ok(true), Err(failed())), Ok(message()));
    assert_eq!(admit_message(message(), Ok(false), Ok(true)), Ok(message()));
    assert_eq!(admit_message(message(), Ok(false), Err(failed())), Err(refused()));
    assert_eq!(admit_message(message(), Ok(false), Ok(false)), Err(refused()));
}

#[test]
fn active_and_next_authorities_may_speak() {
    let (active, next) = ([account(1)], [account(2)]);
    for seed in [1u8, 2] {
        let verified = verify_signature_against_authorities(signed_by(seed), &active, &next);
        assert_eq!(verified, Ok(message()));
        let swapped = verify_signature_against_authorities(signed_by(seed), &next, &active);
        assert_eq!(swapped, Ok(message()));
    }
}

#[test]
fn given_bytes_are_verified_for_their_message() {
    let signature = sign(1, b"wire");
    let (one, two) = ([account(1)], [account(2)]);
    assert_eq!(verify_encoded(message(), b"wire", &signature, &one, &two), Ok(message()));
    assert_eq!(verify_encoded(message(), b"wire", &signature, &two, &one), Ok(message()));
    assert_eq!(verify_encoded(message(), b"wire", &signature, &two, &two), Err(refused()));
    assert_eq!(verify_encoded(message(), b"eriw", &signature, &one, &one), Err(refused()));
}

#[test]
fn strangers_are_turned_away() {
    let verified =
        verify_signature_against_authorities(signed_by(3), &[account(1)], &[account(2)]);
    assert_eq!(verified, Err(refused()));
}

#[test]
fn unsigned_messages_are_turned_away() {
    let unsigned = SignedDKGMessage { msg: message(), signature: None };
    let verified = verify_signature_against_authorities(unsigned, &[account(1)], &[account(2)]);
    assert_eq!(verified, Err(refused()));
}

#[test]
fn changed_messages_are_turned_away() {
    let mut signed = signed_by(1);
    signed.msg.round_id = 6;
    let verified = verify_signature_against_authorities(signed, &[account(1)], &[]);
    assert_eq!(verified, Err(refused()));
}

#[test]
fn admitted_messages_become_broadcasts_of_the_party() {
    let admitted = signed_by(1).transform(7, &[account(1)], &[]);
    assert_eq!(admitted, Ok(Msg { sender: 7, receiver: None, body: message() }));
    assert_eq!(signed_by(1).transform(7, &[], &[]), Err(refused()));
}

#[test]
fn stream_of_incoming_messages_follows_the_channel() {
    let admitted = incoming_item(Some(signed_by(2)), 1, &[], &[account(2)]);
    assert_eq!(admitted, Some(Ok(Msg { sender: 1, receiver: None, body: message() })));
    let turned_away = incoming_item(Some(signed_by(3)), 1, &[], &[account(2)]);
    assert_eq!(turned_away, Some(Err(refused())));
    assert_eq!(incoming_item::<SignedDKGMessage>(None, 1, &[], &[account(2)]), None);
}
