//! Which authorities may speak: checking a message's signature against the
//! authorities of the current and the next round.
use crate::bytes::{array_at, to_slice_32};
use crate::scale::encode_account;
use crate::types::{AccountId32, DKGError, DKGMessage, SignedDKGMessage};
use sp_core::Pair;
use vstd::prelude::*;

verus! {

/// What `sr25519::Pair::verify` of `sp_core` answers for the 64 bytes of a
/// signature, a message and the 32 bytes of a public key.
pub uninterp spec fn sr25519_verifies(
    signature: Seq<u8>,
    message: Seq<u8>,
    public: Seq<u8>,
) -> bool;

/// Calls `verify` of `sp_core::sr25519::Pair`. Its answer depends on the three
/// arguments alone; which signatures it accepts is left to the curve. The transcript that
/// it hashes panics on a message longer than `u32::MAX`.
#[verifier::external_body]
fn sr25519_verify(signature: &[u8; 64], message: &[u8], public: &[u8; 32]) -> (valid: bool)
    requires
        message@.len() <= u32::MAX,
    ensures
        valid == sr25519_verifies(signature@, message@, public@),
{
    let signature = sp_core::sr25519::Signature::from_raw(*signature);
    let public = sp_core::sr25519::Public::from_raw(*public);
    sp_core::sr25519::Pair::verify(&signature, message, &public)
}

/// `signature` is one of `data` under one of the public keys.
pub open spec fn signed_by_key(
    data: Seq<u8>,
    signature: Seq<u8>,
    keys: Seq<[u8; 32]>,
) -> bool {
    &&& signature.len() == 64
    &&& exists|i: int|
        0 <= i < keys.len() && #[trigger] sr25519_verifies(signature, data, keys[i]@)
}

/// `signature` is one of `data` by one of the accounts.
pub open spec fn signed_by(
    data: Seq<u8>,
    signature: Seq<u8>,
    set: Seq<AccountId32>,
) -> bool {
    &&& signature.len() == 64
    &&& exists|i: int|
        0 <= i < set.len() && #[trigger] sr25519_verifies(signature, data, set[i].bytes@)
}

/// The bytes of the signature, none if there is no signature.
pub open spec fn signature_bytes(signature: Option<Vec<u8>>) -> Seq<u8> {
    match signature {
        Some(bytes) => bytes@,
        None => Seq::empty(),
    }
}

impl SignedDKGMessage {
    /// The message was signed by an account of one of the two sets.
    pub open spec fn is_authorized(
        self,
        active: Seq<AccountId32>,
        next: Seq<AccountId32>,
    ) -> bool {
        let signature = signature_bytes(self.signature);
        ||| signed_by(self.msg.encoding(), signature, active)
        ||| signed_by(self.msg.encoding(), signature, next)
    }
}

/// Why a message is turned away.
pub open spec fn unregistered_signer() -> Seq<char> {
    "Message signature is not from a registered authority or next authority"@
}

/// Why an account gives no public key.
pub open spec fn not_a_public_key() -> Seq<char> {
    "Failed to convert account id to sr25519 public key"@
}

/// Reads each encoded account as a public key. Fails if one of them does not have
/// the length of a key.
pub fn signer_keys(encoded: &[Vec<u8>]) -> (keys: Result<Vec<[u8; 32]>, DKGError>)
    ensures
        keys is Ok <==> forall|i: int| 0 <= i < encoded@.len() ==> #[trigger] encoded@[i]@.len() == 32,
        keys matches Ok(keys) ==> {
            &&& keys@.len() == encoded@.len()
            &&& forall|i: int| 0 <= i < keys@.len() ==> #[trigger] keys@[i]@ == encoded@[i]@
        },
        keys matches Err(error) ==> error.is_generic(not_a_public_key()),
{
    let mut keys: Vec<[u8; 32]> = Vec::new();
    let mut i: usize = 0;
    while i < encoded.len()
        invariant
            i <= encoded@.len(),
            keys@.len() == i,
            forall|j: int| 0 <= j < i ==> #[trigger] keys@[j]@ == encoded@[j]@,
            forall|j: int| 0 <= j < i ==> #[trigger] encoded@[j]@.len() == 32,
        decreases encoded@.len() - i,
    {
        match to_slice_32(encoded[i].as_slice()) {
            Some(key) => keys.push(key),
            None => {
                return Err(
                    DKGError::GenericError {
                        reason: "Failed to convert account id to sr25519 public key".to_string(),
                    },
                );
            },
        }
        i += 1;
    }
    Ok(keys)
}

/// Whether `signature` is one of `data` under one of the public keys.
pub fn verify_signer_from_set(keys: &[[u8; 32]], data: &[u8], signature: &[u8]) -> (found: bool)
    requires
        data@.len() <= u32::MAX,
    ensures
        found == signed_by_key(data@, signature@, keys@),
{
    if signature.len() != 64 {
        return false;
    }
    let raw: [u8; 64] = array_at(signature, 0);
    assert(raw@ =~= signature@);
    let mut i: usize = 0;
    while i < keys.len()
        invariant
            i <= keys@.len(),
            data@.len() <= u32::MAX,
            raw@ == signature@,
            forall|j: int|
                0 <= j < i ==> !#[trigger] sr25519_verifies(signature@, data@, keys@[j]@),
        decreases keys@.len() - i,
    {
        if sr25519_verify(&raw, data, &keys[i]) {
            return true;
        }
        i += 1;
    }
    false
}

proof fn lemma_keys_of_accounts(
    data: Seq<u8>,
    signature: Seq<u8>,
    keys: Seq<[u8; 32]>,
    set: Seq<AccountId32>,
)
    requires
        keys.len() == set.len(),
        forall|i: int| 0 <= i < keys.len() ==> #[trigger] keys[i]@ == set[i].bytes@,
    ensures
        signed_by_key(data, signature, keys) == signed_by(data, signature, set),
{
    if signed_by_key(data, signature, keys) {
        let i = choose|i: int|
            0 <= i < keys.len() && #[trigger] sr25519_verifies(signature, data, keys[i]@);
        assert(keys[i]@ == set[i].bytes@);
        assert(sr25519_verifies(signature, data, set[i].bytes@));
    }
    if signed_by(data, signature, set) {
        let i = choose|i: int|
            0 <= i < set.len() && #[trigger] sr25519_verifies(signature, data, set[i].bytes@);
        assert(keys[i]@ == set[i].bytes@);
        assert(sr25519_verifies(signature, data, keys[i]@));
    }
}

/// Checks a `signature` of some `data` against a `set` of accounts. Answers whether
/// the signature was produced by an account in the set.
pub fn check_signers(data: &[u8], signature: &[u8], set: &[AccountId32]) -> (signed: Result<
    bool,
    DKGError,
>)
    requires
        data@.len() <= u32::MAX,
    ensures
        signed == Ok::<bool, DKGError>(signed_by(data@, signature@, set@)),
{
    let mut encoded: Vec<Vec<u8>> = Vec::new();
    let mut i: usize = 0;
    while i < set.len()
        invariant
            i <= set@.len(),
            encoded@.len() == i,
            forall|j: int| 0 <= j < i ==> #[trigger] encoded@[j]@ == set@[j].bytes@,
        decreases set@.len() - i,
    {
        encoded.push(encode_account(&set[i]));
        i += 1;
    }
    match signer_keys(encoded.as_slice()) {
        Err(error) => Err(error),
        Ok(keys) => {
            let found = verify_signer_from_set(keys.as_slice(), data, signature);
            proof {
                lemma_keys_of_accounts(data@, signature@, keys@, set@);
            }
            Ok(found)
        },
    }
}

/// Combines the checks against the active and the next authorities: a failed check
/// of the active ones is passed on, a failed check of the next ones counts as
/// unsigned.
pub fn admit_message(
    msg: DKGMessage,
    by_active: Result<bool, DKGError>,
    by_next: Result<bool, DKGError>,
) -> (admitted: Result<DKGMessage, DKGError>)
    ensures
        match (by_active, by_next) {
            (Err(error), _) => admitted == Err::<DKGMessage, DKGError>(error),
            (Ok(true), _) => admitted == Ok::<DKGMessage, DKGError>(msg),
            (Ok(false), Ok(true)) => admitted == Ok::<DKGMessage, DKGError>(msg),
            (Ok(false), _) => admitted is Err && admitted->Err_0.is_generic(unregistered_signer()),
        },
{
    let active = match by_active {
        Ok(signed) => signed,
        Err(error) => return Err(error),
    };
    let next = match by_next {
        Ok(signed) => signed,
        Err(_) => false,
    };
    if active || next {
        Ok(msg)
    } else {
        Err(
            DKGError::GenericError {
                reason:
                    "Message signature is not from a registered authority or next authority".to_string(),
            },
        )
    }
}

/// Verifies that `encoded`, which stands for `msg` on the wire, was signed by the active
/// or the next authorities, and hands out the message.
pub fn verify_encoded(
    msg: DKGMessage,
    encoded: &[u8],
    signature: &[u8],
    active: &[AccountId32],
    next: &[AccountId32],
) -> (verified: Result<DKGMessage, DKGError>)
    requires
        encoded@.len() <= u32::MAX,
    ensures
        verified is Ok <==> signed_by(encoded@, signature@, active@) || signed_by(
            encoded@,
            signature@,
            next@,
        ),
        verified matches Ok(verified) ==> verified == msg,
        verified matches Err(error) ==> error.is_generic(unregistered_signer()),
{
    let by_active = check_signers(encoded, signature, active);
    if let Ok(true) = by_active {
        return Ok(msg);
    }
    let by_next = check_signers(encoded, signature, next);
    admit_message(msg, by_active, by_next)
}

/// Verifies that a message was signed by the active or the next authorities, and
/// hands out the message.
pub fn verify_signature_against_authorities(
    signed_dkg_msg: SignedDKGMessage,
    active_authorities: &[AccountId32],
    next_authorities: &[AccountId32],
) -> (verified: Result<DKGMessage, DKGError>)
    requires
        signed_dkg_msg.msg.encodable(),
    ensures
        verified is Ok <==> signed_dkg_msg.is_authorized(active_authorities@, next_authorities@),
        verified matches Ok(msg) ==> msg == signed_dkg_msg.msg,
        verified matches Err(error) ==> error.is_generic(unregistered_signer()),
{
    let dkg_msg = signed_dkg_msg.msg;
    let encoded = dkg_msg.encode();
    let signature: Vec<u8> = match signed_dkg_msg.signature {
        Some(bytes) => bytes,
        None => Vec::new(),
    };
    verify_encoded(
        dkg_msg,
        encoded.as_slice(),
        signature.as_slice(),
        active_authorities,
        next_authorities,
    )
}

/// Only membership counts: neither the order of the accounts nor a repeated account
/// changes whose signature is accepted, and a larger set accepts at least as much.
pub proof fn law_only_membership_counts(
    data: Seq<u8>,
    signature: Seq<u8>,
    small: Seq<AccountId32>,
    large: Seq<AccountId32>,
)
    requires
        forall|account: AccountId32| #[trigger]
            small.contains(account) ==> large.contains(account),
    ensures
        signed_by(data, signature, small) ==> signed_by(data, signature, large),
        (forall|account: AccountId32| #[trigger]
            large.contains(account) ==> small.contains(account)) ==> signed_by(
            data,
            signature,
            small,
        ) == signed_by(data, signature, large),
{
    lemma_contained_signer(data, signature, small, large);
    if forall|account: AccountId32| #[trigger] large.contains(account) ==> small.contains(account) {
        lemma_contained_signer(data, signature, large, small);
    }
}

proof fn lemma_contained_signer(
    data: Seq<u8>,
    signature: Seq<u8>,
    from: Seq<AccountId32>,
    to: Seq<AccountId32>,
)
    requires
        forall|account: AccountId32| #[trigger] from.contains(account) ==> to.contains(account),
    ensures
        signed_by(data, signature, from) ==> signed_by(data, signature, to),
{
    if signed_by(data, signature, from) {
        let i = choose|i: int|
            0 <= i < from.len() && #[trigger] sr25519_verifies(signature, data, from[i].bytes@);
        assert(from.contains(from[i]));
        let j = choose|j: int| 0 <= j < to.len() && to[j] == from[i];
        assert(sr25519_verifies(signature, data, to[j].bytes@));
    }
}

/// A message without a signature is turned away, whoever the authorities are, and so
/// is every message where there are no authorities.
pub proof fn law_no_signer_no_authority(
    signed: SignedDKGMessage,
    active: Seq<AccountId32>,
    next: Seq<AccountId32>,
)
    ensures
        signed.signature is None ==> !signed.is_authorized(active, next),
        active.len() == 0 && next.len() == 0 ==> !signed.is_authorized(active, next),
{
}

/// The active and the next authorities have equal say.
pub proof fn law_active_and_next_are_equals(
    signed: SignedDKGMessage,
    active: Seq<AccountId32>,
    next: Seq<AccountId32>,
)
    ensures
        signed.is_authorized(active, next) == signed.is_authorized(next, active),
        signed.is_authorized(active, next) == signed.is_authorized(active + next, Seq::empty()),
{
    let data = signed.msg.encoding();
    let signature = signature_bytes(signed.signature);
    let both = active + next;
    assert forall|account: AccountId32| #[trigger] active.contains(account) implies both.contains(
        account,
    ) by {
        let i = choose|i: int| 0 <= i < active.len() && active[i] == account;
        assert(both[i] == account);
    }
    assert forall|account: AccountId32| #[trigger] next.contains(account) implies both.contains(
        account,
    ) by {
        let i = choose|i: int| 0 <= i < next.len() && next[i] == account;
        assert(both[active.len() + i] == account);
    }
    lemma_contained_signer(data, signature, active, both);
    lemma_contained_signer(data, signature, next, both);
    if signed_by(data, signature, both) {
        let i = choose|i: int|
            0 <= i < both.len() && #[trigger] sr25519_verifies(signature, data, both[i].bytes@);
        if i < active.len() {
            assert(sr25519_verifies(signature, data, active[i].bytes@));
        } else {
            assert(sr25519_verifies(signature, data, next[i - active.len()].bytes@));
        }
    }
}

} // verus!
