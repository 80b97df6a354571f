//! The SCALE wire format of the gadget's messages.
use crate::types::{AccountId32, DKGMessage, DKGMsgPayload};
use parity_scale_codec::Encode;
use vstd::prelude::*;

verus! {

/// `value` as `width` bytes, least significant byte first.
pub open spec fn le_bytes(value: nat, width: nat) -> Seq<u8>
    decreases width,
{
    if width == 0 {
        Seq::empty()
    } else {
        seq![(value % 256) as u8] + le_bytes(value / 256, (width - 1) as nat)
    }
}

/// The prefix that announces `len` elements. Its two lowest bits say how wide it is.
pub open spec fn compact_len(len: nat) -> Seq<u8> {
    if len < 0x40 {
        le_bytes(4 * len, 1)
    } else if len < 0x4000 {
        le_bytes(4 * len + 1, 2)
    } else if len < 0x4000_0000 {
        le_bytes(4 * len + 2, 4)
    } else {
        seq![3u8] + le_bytes(len, 4)
    }
}

/// A byte string: its length, then its bytes.
pub open spec fn scale_bytes(bytes: Seq<u8>) -> Seq<u8> {
    compact_len(bytes.len()) + bytes
}

impl DKGMessage {
    /// The bytes that stand for the message on the wire and under its signature:
    /// the sender's key, the payload's kind and bytes, and the round.
    pub open spec fn encoding(self) -> Seq<u8> {
        self.id.bytes@ + seq![self.payload.kind()] + scale_bytes(self.payload.body()) + le_bytes(
            self.round_id as nat,
            8,
        )
    }

    /// The payload is of the kind that it says, and the wire format, and with it what is
    /// signed, is at most `u32::MAX` bytes long.
    pub open spec fn encodable(self) -> bool {
        &&& self.payload.wf()
        &&& self.encoding().len() <= u32::MAX
    }

    /// Whether the payload is of the kind that it says and the message's wire format is at
    /// most `u32::MAX` bytes long.
    pub fn is_encodable(&self) -> (fits: bool)
        ensures
            fits == self.encodable(),
    {
        let len: usize = match &self.payload {
            DKGMsgPayload::Keygen(msg) => msg.keygen_msg.len(),
            DKGMsgPayload::Offline(msg) => msg.offline_msg.len(),
            DKGMsgPayload::Vote(msg) => msg.vote_msg.len(),
            DKGMsgPayload::Other(other) => {
                if other.kind <= 2 {
                    return false;
                }
                other.body.len()
            },
        };
        proof {
            self.lemma_encoding_len();
        }
        let len: u64 = len as u64;
        if len > u32::MAX as u64 {
            return false;
        }
        let prefix: u64 = if len < 0x40 {
            1
        } else if len < 0x4000 {
            2
        } else if len < 0x4000_0000 {
            4
        } else {
            5
        };
        // The key, the kind, the payload and the round
        33 + 1 + prefix + len + 8 <= u32::MAX as u64
    }

    proof fn lemma_encoding_len(self)
        ensures
            self.encoding().len() == 33 + 1 + compact_width(self.payload.body().len())
                + self.payload.body().len() + 8,
    {
        lemma_compact_len_size(self.payload.body().len());
        lemma_le_bytes_len(self.round_id as nat, 8);
    }

    /// The message's wire format.
    pub fn encode(&self) -> (bytes: Vec<u8>)
        requires
            self.encodable(),
        ensures
            bytes@ == self.encoding(),
    {
        proof {
            self.lemma_encoding_len();
        }
        match &self.payload {
            DKGMsgPayload::Keygen(msg) => encode_parts(
                &self.id.bytes,
                0,
                msg.keygen_msg.as_slice(),
                self.round_id,
            ),
            DKGMsgPayload::Offline(msg) => encode_parts(
                &self.id.bytes,
                1,
                msg.offline_msg.as_slice(),
                self.round_id,
            ),
            DKGMsgPayload::Vote(msg) => encode_parts(
                &self.id.bytes,
                2,
                msg.vote_msg.as_slice(),
                self.round_id,
            ),
            DKGMsgPayload::Other(other) => encode_parts(
                &self.id.bytes,
                other.kind,
                other.body.as_slice(),
                self.round_id,
            ),
        }
    }
}

/// Calls `Encode::encode` of `parity_scale_codec` on the tuple of the arguments.
/// A tuple is encoded field by field: an array as its bytes, a `u8` as one byte, a
/// slice as its length and its bytes, a `u64` as eight bytes, the lowest first. The
/// codec panics on a slice longer than `u32::MAX`.
#[verifier::external_body]
fn encode_parts(id: &[u8; 33], kind: u8, body: &[u8], round_id: u64) -> (bytes: Vec<u8>)
    requires
        body@.len() <= u32::MAX,
    ensures
        bytes@ == id@ + seq![kind] + scale_bytes(body@) + le_bytes(round_id as nat, 8),
{
    (id, kind, body, round_id).encode()
}

/// Calls `Encode::encode` of `parity_scale_codec` on the `AccountId32` of `sp_core`
/// that `AccountId32::new` makes of the account's bytes. It is encoded as those
/// bytes, without a length.
#[verifier::external_body]
pub(crate) fn encode_account(account: &AccountId32) -> (bytes: Vec<u8>)
    ensures
        bytes@ == account.bytes@,
{
    sp_core::crypto::AccountId32::new(account.bytes).encode()
}

proof fn lemma_le_bytes_len(value: nat, width: nat)
    ensures
        le_bytes(value, width).len() == width,
    decreases width,
{
    if width > 0 {
        lemma_le_bytes_len(value / 256, (width - 1) as nat);
    }
}

/// How many values `exponent` bytes can hold.
spec fn byte_range(exponent: nat) -> nat
    decreases exponent,
{
    if exponent == 0 {
        1
    } else {
        256 * byte_range((exponent - 1) as nat)
    }
}

proof fn lemma_le_bytes_injective(a: nat, b: nat, width: nat)
    requires
        a < byte_range(width),
        b < byte_range(width),
        le_bytes(a, width) == le_bytes(b, width),
    ensures
        a == b,
    decreases width,
{
    if width > 0 {
        let low_a = seq![(a % 256) as u8];
        let low_b = seq![(b % 256) as u8];
        let rest = (width - 1) as nat;
        assert(le_bytes(a, width)[0] == low_a[0]);
        assert(le_bytes(b, width)[0] == low_b[0]);
        assert(le_bytes(a, width).skip(1) =~= le_bytes(a / 256, rest));
        assert(le_bytes(b, width).skip(1) =~= le_bytes(b / 256, rest));
        lemma_le_bytes_injective(a / 256, b / 256, rest);
    }
}

/// How wide the prefix that announces `len` elements is.
spec fn compact_width(len: nat) -> nat {
    if len < 0x40 {
        1
    } else if len < 0x4000 {
        2
    } else if len < 0x4000_0000 {
        4
    } else {
        5
    }
}

/// The bytes of `le_bytes` are the digits of the value to the base 256.
pub(crate) proof fn lemma_le_bytes_value_8(value: nat)
    requires
        value <= u64::MAX,
    ensures
        ({
            let b = le_bytes(value, 8);
            &&& b.len() == 8
            &&& value == b[0] + 0x100 * b[1] + 0x1_0000 * b[2] + 0x100_0000 * b[3] + 0x1_0000_0000
                * b[4] + 0x100_0000_0000 * b[5] + 0x1_0000_0000_0000 * b[6] + 0x100_0000_0000_0000
                * b[7]
        }),
{
    reveal_with_fuel(le_bytes, 9);
}

/// The bytes of a length prefix, by its width.
pub(crate) proof fn lemma_prefix_value(len: nat)
    ensures
        ({
            let p = compact_len(len);
            &&& len < 0x40 ==> p.len() == 1 && p[0] == 4 * len
            &&& 0x40 <= len < 0x4000 ==> p.len() == 2 && p[0] + 0x100 * p[1] == 4 * len + 1
            &&& 0x4000 <= len < 0x4000_0000 ==> p.len() == 4 && p[0] + 0x100 * p[1] + 0x1_0000 * p[2]
                + 0x100_0000 * p[3] == 4 * len + 2
            &&& len >= 0x4000_0000 ==> p.len() == 5
            &&& 0x4000_0000 <= len <= u32::MAX ==> p[0] == 3 && p[1] + 0x100 * p[2] + 0x1_0000 * p[3]
                + 0x100_0000 * p[4] == len
        }),
{
    reveal_with_fuel(le_bytes, 5);
}

proof fn lemma_compact_len_size(len: nat)
    ensures
        compact_len(len).len() == compact_width(len),
{
    lemma_le_bytes_len(4 * len, 1);
    lemma_le_bytes_len(4 * len + 1, 2);
    lemma_le_bytes_len(4 * len + 2, 4);
    lemma_le_bytes_len(len, 4);
}

/// The wire format is unambiguous: two messages with the same bytes have the same
/// sender, round, stage, payload kind and payload bytes. They can differ only in how a payload
/// of no stage prints in a log, which is not on the wire.
pub proof fn law_encoding_unambiguous(a: DKGMessage, b: DKGMessage)
    requires
        a.payload.wf(),
        b.payload.wf(),
        a.encoding() == b.encoding(),
    ensures
        a.id == b.id,
        a.round_id == b.round_id,
        a.payload.kind() == b.payload.kind(),
        a.payload.body() == b.payload.body(),
        a.payload is Keygen <==> b.payload is Keygen,
        a.payload is Offline <==> b.payload is Offline,
        a.payload is Vote <==> b.payload is Vote,
        a.payload is Other <==> b.payload is Other,
{
    let whole = a.encoding();
    let (body_a, body_b) = (a.payload.body(), b.payload.body());
    let prefix_a = compact_len(body_a.len());
    let prefix_b = compact_len(body_b.len());
    lemma_compact_len_size(body_a.len());
    lemma_compact_len_size(body_b.len());
    lemma_le_bytes_len(a.round_id as nat, 8);
    lemma_le_bytes_len(b.round_id as nat, 8);
    assert(whole.len() == 33 + 1 + prefix_a.len() + body_a.len() + 8);
    assert(whole.len() == 33 + 1 + prefix_b.len() + body_b.len() + 8);
    assert(body_a.len() == body_b.len());
    let from = 34 + prefix_a.len() as int;
    let to = from + body_a.len() as int;
    assert(a.id.bytes@ =~= whole.take(33));
    assert(b.id.bytes@ =~= whole.take(33));
    assert(a.id.bytes =~= b.id.bytes);
    assert(a.payload.kind() == whole[33]);
    assert(b.payload.kind() == whole[33]);
    assert(body_a =~= whole.subrange(from, to));
    assert(body_b =~= whole.subrange(from, to));
    assert(le_bytes(a.round_id as nat, 8) =~= whole.skip(to));
    assert(le_bytes(b.round_id as nat, 8) =~= whole.skip(to));
    reveal_with_fuel(byte_range, 9);
    lemma_le_bytes_injective(a.round_id as nat, b.round_id as nat, 8);
}

} // verus!
