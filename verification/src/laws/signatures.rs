//! Laws of who may speak.
use super::wire::{carried, prefix_width};
use crate::async_protocol_handlers::{incoming_item, TransformIncoming};
use crate::bytes::{array_at, to_slice_32};
use crate::signers::{
    admit_message, check_signers, signature_bytes, signed_by, signer_keys, sr25519_verifies,
    verify_encoded, verify_signature_against_authorities, verify_signer_from_set,
};
use crate::types::{AccountId32, DKGError, DKGMessage, Msg, SignedDKGMessage};
use vstd::prelude::*;

verus! {

/// The protocol survives `error`, which says `text`.
pub open spec fn survivable(error: DKGError, text: Seq<char>) -> bool {
    match error {
        DKGError::GenericError { reason } => reason@ == text,
        DKGError::CriticalError { .. } => false,
    }
}

/// `signature` is one of `data` by `account`.
pub open spec fn made_by(signature: Seq<u8>, data: Seq<u8>, account: AccountId32) -> bool {
    signature.len() == 64 && sr25519_verifies(signature, data, account.bytes@)
}

/// Being signed by a set means that an account of the set made the signature.
proof fn lemma_signed_by(data: Seq<u8>, signature: Seq<u8>, set: Seq<AccountId32>)
    ensures
        forall|account: AccountId32|
            set.contains(account) && #[trigger] made_by(signature, data, account) ==> signed_by(
                data,
                signature,
                set,
            ),
        signed_by(data, signature, set) ==> exists|account: AccountId32|
            set.contains(account) && #[trigger] made_by(signature, data, account),
{
    assert forall|account: AccountId32|
        set.contains(account) && #[trigger] made_by(signature, data, account) implies signed_by(
        data,
        signature,
        set,
    ) by {
        let i = choose|i: int| 0 <= i < set.len() && set[i] == account;
        assert(sr25519_verifies(signature, data, set[i].bytes@));
    }
    if signed_by(data, signature, set) {
        let i = choose|i: int|
            0 <= i < set.len() && #[trigger] sr25519_verifies(signature, data, set[i].bytes@);
        assert(set.contains(set[i]) && made_by(signature, data, set[i]));
    }
}

/// Every message that fits on the wire can be checked, whatever it carries, whoever sent it
/// and in whichever round, with or without a signature and against any authorities.
pub proof fn law_every_message_can_be_checked(
    signed: SignedDKGMessage,
    party_index: u16,
    active: &[AccountId32],
    next: &[AccountId32],
)
    requires
        signed.msg.payload is Other ==> signed.msg.payload->Other_0.kind >= 3,
        42 + prefix_width(carried(signed.msg.payload).len()) + carried(signed.msg.payload).len()
            <= u32::MAX,
    ensures
        call_requires(DKGMessage::encode, (&signed.msg,)),
        call_requires(verify_signature_against_authorities, (signed, active, next)),
        signed.can_transform(),
        call_requires(incoming_item::<SignedDKGMessage>, (Some(signed), party_index, active, next)),
        call_requires(
            incoming_item::<SignedDKGMessage>,
            (None::<SignedDKGMessage>, party_index, active, next),
        ),
{
    crate::scale::lemma_le_bytes_value_8(signed.msg.round_id as nat);
    crate::scale::lemma_prefix_value(carried(signed.msg.payload).len());
}

/// A message that an active or a next authority signed, as it stands on the wire, is
/// admitted as it is. Nothing else about it matters.
pub proof fn law_every_authority_is_heard(
    signed: SignedDKGMessage,
    signature: Vec<u8>,
    active: &[AccountId32],
    next: &[AccountId32],
    account: AccountId32,
    bytes: Vec<u8>,
    verified: Result<DKGMessage, DKGError>,
)
    requires
        call_ensures(DKGMessage::encode, (&signed.msg,), bytes),
        call_ensures(verify_signature_against_authorities, (signed, active, next), verified),
        signed.signature == Some(signature),
        active@.contains(account) || next@.contains(account),
        made_by(signature@, bytes@, account),
    ensures
        verified == Ok::<DKGMessage, DKGError>(signed.msg),
{
    lemma_signed_by(bytes@, signature@, active@);
    lemma_signed_by(bytes@, signature@, next@);
}

/// Nobody else is heard: an admitted message carries a signature, by an active or a next
/// authority, of the bytes that stand for it on the wire. A refusal says so and does not
/// end the protocol.
pub proof fn law_only_authorities_are_heard(
    signed: SignedDKGMessage,
    active: &[AccountId32],
    next: &[AccountId32],
    bytes: Vec<u8>,
    verified: Result<DKGMessage, DKGError>,
)
    requires
        call_ensures(DKGMessage::encode, (&signed.msg,), bytes),
        call_ensures(verify_signature_against_authorities, (signed, active, next), verified),
    ensures
        match verified {
            Ok(msg) => {
                &&& msg == signed.msg
                &&& signed.signature is Some
                &&& exists|account: AccountId32|
                    (active@.contains(account) || next@.contains(account)) && #[trigger] made_by(
                        signed.signature->0@,
                        bytes@,
                        account,
                    )
            },
            Err(error) => survivable(
                error,
                "Message signature is not from a registered authority or next authority"@,
            ),
        },
{
    let signature = signature_bytes(signed.signature);
    lemma_signed_by(bytes@, signature, active@);
    lemma_signed_by(bytes@, signature, next@);
}

/// Checking bytes that stand for a message hears every authority, and no one else.
pub proof fn law_signed_bytes_are_heard(
    msg: DKGMessage,
    encoded: &[u8],
    signature: &[u8],
    active: &[AccountId32],
    next: &[AccountId32],
    verified: Result<DKGMessage, DKGError>,
)
    requires
        call_ensures(verify_encoded, (msg, encoded, signature, active, next), verified),
    ensures
        forall|account: AccountId32|
            (active@.contains(account) || next@.contains(account)) && #[trigger] made_by(
                signature@,
                encoded@,
                account,
            ) ==> verified == Ok::<DKGMessage, DKGError>(msg),
        match verified {
            Ok(admitted) => {
                &&& admitted == msg
                &&& exists|account: AccountId32|
                    (active@.contains(account) || next@.contains(account)) && #[trigger] made_by(
                        signature@,
                        encoded@,
                        account,
                    )
            },
            Err(error) => survivable(
                error,
                "Message signature is not from a registered authority or next authority"@,
            ),
        },
        encoded@.len() <= u32::MAX ==> call_requires(
            verify_encoded,
            (msg, encoded, signature, active, next),
        ),
{
    lemma_signed_by(encoded@, signature@, active@);
    lemma_signed_by(encoded@, signature@, next@);
}

/// Checking against a set of accounts never fails, and finds the signature if and only if
/// an account of the set made it.
pub proof fn law_signers_of_a_set_are_found(
    data: &[u8],
    signature: &[u8],
    set: &[AccountId32],
    signed: Result<bool, DKGError>,
)
    requires
        call_ensures(check_signers, (data, signature, set), signed),
    ensures
        signed is Ok,
        forall|account: AccountId32|
            set@.contains(account) && #[trigger] made_by(signature@, data@, account)
                ==> signed->Ok_0,
        signed->Ok_0 ==> exists|account: AccountId32|
            set@.contains(account) && #[trigger] made_by(signature@, data@, account),
        data@.len() <= u32::MAX ==> call_requires(check_signers, (data, signature, set)),
{
    lemma_signed_by(data@, signature@, set@);
}

/// A signature is found if and only if it has the length of one and verifies under one of
/// the keys.
pub proof fn law_signers_among_keys_are_found(
    keys: &[[u8; 32]],
    data: &[u8],
    signature: &[u8],
    found: bool,
)
    requires
        call_ensures(verify_signer_from_set, (keys, data, signature), found),
    ensures
        forall|i: int|
            0 <= i < keys@.len() && signature@.len() == 64 && #[trigger] sr25519_verifies(
                signature@,
                data@,
                keys@[i]@,
            ) ==> found,
        found ==> signature@.len() == 64 && exists|i: int|
            0 <= i < keys@.len() && #[trigger] sr25519_verifies(signature@, data@, keys@[i]@),
        data@.len() <= u32::MAX ==> call_requires(verify_signer_from_set, (keys, data, signature)),
{
}

/// Accounts become keys one by one and in order, and if one of them has another length
/// than a key none does.
pub proof fn law_accounts_become_keys(
    encoded: &[Vec<u8>],
    keys: Result<Vec<[u8; 32]>, DKGError>,
)
    requires
        call_ensures(signer_keys, (encoded,), keys),
    ensures
        match keys {
            Ok(keys) => {
                &&& keys@.len() == encoded@.len()
                &&& forall|i: int|
                    0 <= i < encoded@.len() ==> keys@[i]@ == (#[trigger] encoded@[i])@
            },
            Err(error) => {
                &&& survivable(error, "Failed to convert account id to sr25519 public key"@)
                &&& exists|i: int|
                    0 <= i < encoded@.len() && (#[trigger] encoded@[i])@.len() != 32
            },
        },
        call_requires(signer_keys, (encoded,)),
{
}

/// A message is admitted if one of the two checks found its signer. A failed check of the
/// active authorities is passed on, one of the next authorities finds nobody.
pub proof fn law_one_check_is_enough(
    msg: DKGMessage,
    by_active: Result<bool, DKGError>,
    by_next: Result<bool, DKGError>,
    admitted: Result<DKGMessage, DKGError>,
)
    requires
        call_ensures(admit_message, (msg, by_active, by_next), admitted),
    ensures
        by_active is Err ==> admitted == Err::<DKGMessage, DKGError>(by_active->Err_0),
        by_active is Ok && (by_active->Ok_0 || by_next is Ok && by_next->Ok_0) ==> admitted == Ok::<
            DKGMessage,
            DKGError,
        >(msg),
        by_active is Ok && !by_active->Ok_0 && (by_next is Err || !by_next->Ok_0) ==> admitted is Err
            && survivable(
            admitted->Err_0,
            "Message signature is not from a registered authority or next authority"@,
        ),
        call_requires(admit_message, (msg, by_active, by_next)),
{
}

/// An incoming message is admitted if and only if its signature is, as a broadcast of the
/// party that it came from. The stream ends with the channel and not before.
pub proof fn law_incoming_messages_are_checked(
    received: Option<SignedDKGMessage>,
    party_index: u16,
    active: &[AccountId32],
    next: &[AccountId32],
    bytes: Vec<u8>,
    item: Option<Result<Msg<DKGMessage>, DKGError>>,
)
    requires
        call_ensures(
            incoming_item::<SignedDKGMessage>,
            (received, party_index, active, next),
            item,
        ),
        received is Some ==> call_ensures(DKGMessage::encode, (&received->0.msg,), bytes),
    ensures
        item is Some <==> received is Some,
        received is Some ==> {
            let signed = received->0;
            &&& forall|account: AccountId32|
                (active@.contains(account) || next@.contains(account)) && signed.signature is Some
                    && #[trigger] made_by(signed.signature->0@, bytes@, account) ==> item->0 is Ok
            &&& match item->0 {
                Ok(msg) => {
                    &&& msg.sender == party_index
                    &&& msg.receiver is None
                    &&& msg.body == signed.msg
                    &&& signed.signature is Some
                    &&& exists|account: AccountId32|
                        (active@.contains(account) || next@.contains(account))
                            && #[trigger] made_by(signed.signature->0@, bytes@, account)
                },
                Err(error) => survivable(
                    error,
                    "Message signature is not from a registered authority or next authority"@,
                ),
            }
        },
{
    if received is Some {
        law_transformed_messages_are_checked(
            received->0,
            party_index,
            active,
            next,
            bytes,
            item->0,
        );
    }
}

/// A signed message is transformed if and only if an active or a next authority signed
/// what stands for it on the wire. It becomes a broadcast of the given party.
pub proof fn law_transformed_messages_are_checked(
    signed: SignedDKGMessage,
    party_index: u16,
    active: &[AccountId32],
    next: &[AccountId32],
    bytes: Vec<u8>,
    admitted: Result<Msg<DKGMessage>, DKGError>,
)
    requires
        call_ensures(DKGMessage::encode, (&signed.msg,), bytes),
        call_ensures(
            <SignedDKGMessage as TransformIncoming>::transform,
            (signed, party_index, active, next),
            admitted,
        ),
    ensures
        forall|account: AccountId32|
            (active@.contains(account) || next@.contains(account)) && signed.signature is Some
                && #[trigger] made_by(signed.signature->0@, bytes@, account) ==> admitted is Ok,
        match admitted {
            Ok(msg) => {
                &&& msg.sender == party_index
                &&& msg.receiver is None
                &&& msg.body == signed.msg
                &&& signed.signature is Some
                &&& exists|account: AccountId32|
                    (active@.contains(account) || next@.contains(account)) && #[trigger] made_by(
                        signed.signature->0@,
                        bytes@,
                        account,
                    )
            },
            Err(error) => survivable(
                error,
                "Message signature is not from a registered authority or next authority"@,
            ),
        },
{
    let signature = signature_bytes(signed.signature);
    lemma_signed_by(bytes@, signature, active@);
    lemma_signed_by(bytes@, signature, next@);
}

/// An array cut out of a byte string holds the bytes that stand there.
pub proof fn law_arrays_hold_their_bytes<const N: usize>(
    bytes: &[u8],
    from: usize,
    array: [u8; N],
)
    requires
        call_ensures(array_at::<N>, (bytes, from), array),
        from + N <= bytes@.len(),
    ensures
        forall|i: int| 0 <= i < N ==> array@[i] == #[trigger] bytes@[from + i],
        call_requires(array_at::<N>, (bytes, from)),
{
    assert forall|i: int| 0 <= i < N implies array@[i] == #[trigger] bytes@[from + i] by {
        assert(array@[i] == bytes@.subrange(from as int, from + N)[i]);
    }
}

/// A byte string is a key if and only if it has the length of one, and is that key.
pub proof fn law_keys_have_their_length(val: &[u8], key: Option<[u8; 32]>)
    requires
        call_ensures(to_slice_32, (val,), key),
    ensures
        key is Some <==> val@.len() == 32,
        key is Some ==> key->0@ == val@,
        call_requires(to_slice_32, (val,)),
{
}

} // verus!
