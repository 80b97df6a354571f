//! Values that the gadget's modules share.
use vstd::prelude::*;

verus! {

/// Number of a key generation round. It equals the id of the authority set that
/// runs the round.
pub type RoundId = u64;

/// A compressed ECDSA public key, the identity of an authority.
#[derive(Clone, Copy, Debug, PartialEq, Eq)]
pub struct Public {
    pub bytes: [u8; 33],
}

/// An authority is identified by its public key.
pub type AuthorityId = Public;

/// An opaque 32-byte account identifier.
#[derive(Clone, Copy, Debug, PartialEq, Eq)]
pub struct AccountId32 {
    pub bytes: [u8; 32],
}

/// Errors of the key generation protocols.
#[derive(Debug, PartialEq, Eq)]
pub enum DKGError {
    /// Something went wrong that the protocol survives.
    GenericError { reason: String },
    /// Something went wrong that ends the protocol.
    CriticalError { reason: String },
}

impl DKGError {
    /// The error's explanation.
    pub open spec fn text(self) -> Seq<char> {
        match self {
            DKGError::GenericError { reason } => reason@,
            DKGError::CriticalError { reason } => reason@,
        }
    }

    /// The error does not end the protocol, and `text` explains it.
    pub open spec fn is_generic(self, text: Seq<char>) -> bool {
        self is GenericError && self.text() == text
    }

    /// Indicates whether an error is critical or not.
    pub fn is_critical(&self) -> (critical: bool)
        ensures
            critical == (*self is CriticalError),
    {
        match self {
            DKGError::CriticalError { .. } => true,
            _ => false,
        }
    }
}

/// A message of a round-based protocol, with its sender and, unless it is a
/// broadcast, its receiver.
#[derive(Debug, PartialEq, Eq)]
pub struct Msg<B> {
    pub sender: u16,
    pub receiver: Option<u16>,
    pub body: B,
}

/// A message of the key generation stage.
#[derive(Debug, PartialEq, Eq)]
pub struct DKGKeygenMessage {
    /// The JSON text of the protocol message.
    pub keygen_msg: Vec<u8>,
}

/// A message of the offline stage.
#[derive(Debug, PartialEq, Eq)]
pub struct DKGOfflineMessage {
    pub offline_msg: Vec<u8>,
}

/// A message of the voting stage.
#[derive(Debug, PartialEq, Eq)]
pub struct DKGVoteMessage {
    pub vote_msg: Vec<u8>,
}

/// A payload that belongs to none of the three stages.
#[derive(Debug, PartialEq, Eq)]
pub struct OtherPayload {
    /// Position of the payload among the payload kinds of the wire format.
    pub kind: u8,
    pub body: Vec<u8>,
    /// How the payload prints in a log.
    pub description: String,
}

/// What a message carries.
#[derive(Debug, PartialEq, Eq)]
pub enum DKGMsgPayload {
    Keygen(DKGKeygenMessage),
    Offline(DKGOfflineMessage),
    Vote(DKGVoteMessage),
    Other(OtherPayload),
}

impl DKGMsgPayload {
    /// Position of the payload among the payload kinds of the wire format.
    pub open spec fn kind(self) -> u8 {
        match self {
            DKGMsgPayload::Keygen(_) => 0,
            DKGMsgPayload::Offline(_) => 1,
            DKGMsgPayload::Vote(_) => 2,
            DKGMsgPayload::Other(other) => other.kind,
        }
    }

    /// The bytes that the payload carries.
    pub open spec fn body(self) -> Seq<u8> {
        match self {
            DKGMsgPayload::Keygen(msg) => msg.keygen_msg@,
            DKGMsgPayload::Offline(msg) => msg.offline_msg@,
            DKGMsgPayload::Vote(msg) => msg.vote_msg@,
            DKGMsgPayload::Other(other) => other.body@,
        }
    }

    /// The payload is of the kind that it says: the first three kinds are taken by the
    /// protocol stages.
    pub open spec fn wf(self) -> bool {
        self is Other ==> self.kind() > 2
    }
}

/// A message between the parties of a key generation.
#[derive(Debug, PartialEq, Eq)]
pub struct DKGMessage {
    /// The sending authority.
    pub id: Public,
    pub payload: DKGMsgPayload,
    pub round_id: RoundId,
}

/// A message together with the signature of its sender.
#[derive(Debug, PartialEq, Eq)]
pub struct SignedDKGMessage {
    pub msg: DKGMessage,
    pub signature: Option<Vec<u8>>,
}

/// The authorities of one round.
#[derive(Debug, PartialEq, Eq)]
pub struct AuthoritySet {
    pub id: RoundId,
    pub authorities: Vec<AuthorityId>,
}

/// Mathematical view of an [`AuthoritySet`].
#[verifier::ext_equal]
pub struct AuthoritySetView {
    pub id: RoundId,
    pub authorities: Seq<AuthorityId>,
}

impl View for AuthoritySet {
    type V = AuthoritySetView;

    open spec fn view(&self) -> AuthoritySetView {
        AuthoritySetView { id: self.id, authorities: self.authorities@ }
    }
}

} // verus!
