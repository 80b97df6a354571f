//! Laws of the wire format.
use crate::types::{DKGMessage, DKGMsgPayload};
use vstd::prelude::*;

verus! {

/// The bytes of the payload.
pub open spec fn carried(payload: DKGMsgPayload) -> Seq<u8> {
    match payload {
        DKGMsgPayload::Keygen(msg) => msg.keygen_msg@,
        DKGMsgPayload::Offline(msg) => msg.offline_msg@,
        DKGMsgPayload::Vote(msg) => msg.vote_msg@,
        DKGMsgPayload::Other(other) => other.body@,
    }
}

/// The least width that can announce `len` bytes next to a width mark of two bits.
pub open spec fn prefix_width(len: nat) -> nat {
    if 4 * len < 0x100 {
        1
    } else if 4 * len < 0x1_0000 {
        2
    } else if 4 * len < 0x1_0000_0000 {
        4
    } else {
        5
    }
}

/// A message on the wire starts with the sender's key and the number of its payload's
/// kind, which for the three stages is their position, and ends with the payload's bytes
/// and the eight bytes of the round, lowest first.
pub proof fn law_wire_layout(msg: DKGMessage, bytes: Vec<u8>)
    requires
        call_ensures(DKGMessage::encode, (&msg,), bytes),
    ensures
        ({
            let body = carried(msg.payload);
            let width = prefix_width(body.len()) as int;
            let end = 34 + width + body.len();
            &&& bytes@.len() == end + 8
            &&& bytes@.take(33) == msg.id.bytes@
            &&& match msg.payload {
                DKGMsgPayload::Keygen(_) => bytes@[33] == 0,
                DKGMsgPayload::Offline(_) => bytes@[33] == 1,
                DKGMsgPayload::Vote(_) => bytes@[33] == 2,
                DKGMsgPayload::Other(other) => bytes@[33] == other.kind,
            }
            &&& bytes@.subrange(34 + width, end) == body
            &&& msg.round_id == bytes@[end] + 0x100 * bytes@[end + 1] + 0x1_0000 * bytes@[end
                + 2] + 0x100_0000 * bytes@[end + 3] + 0x1_0000_0000 * bytes@[end + 4]
                + 0x100_0000_0000 * bytes@[end + 5] + 0x1_0000_0000_0000 * bytes@[end + 6]
                + 0x100_0000_0000_0000 * bytes@[end + 7]
        }),
{
    let body = carried(msg.payload);
    crate::scale::lemma_le_bytes_value_8(msg.round_id as nat);
    crate::scale::lemma_prefix_value(body.len());
    let prefix = crate::scale::compact_len(body.len());
    let tail = crate::scale::le_bytes(msg.round_id as nat, 8);
    let end = 34 + prefix.len() as int + body.len();
    assert(bytes@.take(33) =~= msg.id.bytes@);
    assert(bytes@.subrange(34 + prefix.len() as int, end) =~= body);
    assert(bytes@.skip(end) =~= tail);
    assert(forall|i: int| 0 <= i < 8 ==> tail[i] == #[trigger] bytes@[end + i]);
    assert(bytes@[end + 0] == tail[0]);
    assert(bytes@[end + 1] == tail[1]);
    assert(bytes@[end + 2] == tail[2]);
    assert(bytes@[end + 3] == tail[3]);
    assert(bytes@[end + 4] == tail[4]);
    assert(bytes@[end + 5] == tail[5]);
    assert(bytes@[end + 6] == tail[6]);
    assert(bytes@[end + 7] == tail[7]);
}

/// Between the kind and the payload stands the payload's length, times four, with its
/// width marked in the two lowest bits; a length too large for that stands unmarked behind
/// a byte of its own.
pub proof fn law_wire_length_prefix(msg: DKGMessage, bytes: Vec<u8>)
    requires
        call_ensures(DKGMessage::encode, (&msg,), bytes),
        carried(msg.payload).len() <= u32::MAX,
    ensures
        ({
            let len = carried(msg.payload).len();
            let width = prefix_width(len);
            &&& width == 1 ==> bytes@[34] == 4 * len
            &&& width == 2 ==> bytes@[34] + 0x100 * bytes@[35] == 4 * len + 1
            &&& width == 4 ==> bytes@[34] + 0x100 * bytes@[35] + 0x1_0000 * bytes@[36] + 0x100_0000
                * bytes@[37] == 4 * len + 2
            &&& width == 5 ==> bytes@[34] == 3 && bytes@[35] + 0x100 * bytes@[36] + 0x1_0000
                * bytes@[37] + 0x100_0000 * bytes@[38] == len
        }),
{
    let body = carried(msg.payload);
    crate::scale::lemma_prefix_value(body.len());
    let prefix = crate::scale::compact_len(body.len());
    assert(bytes@.subrange(34, 34 + prefix.len() as int) =~= prefix);
    assert(forall|i: int| 0 <= i < prefix.len() ==> prefix[i] == #[trigger] bytes@[34 + i]);
    assert(bytes@[34] == prefix[0]);
    if prefix.len() > 1 {
        assert(bytes@[35] == prefix[1]);
    }
    if prefix.len() > 2 {
        assert(bytes@[36] == prefix[2]);
        assert(bytes@[37] == prefix[3]);
    }
    if prefix.len() > 4 {
        assert(bytes@[38] == prefix[4]);
    }
}

/// A message can be encoded exactly if a payload of no stage keeps off the kinds of the
/// stages and the wire format is at most `u32::MAX` bytes long. The sender, the round and
/// the description play no role.
pub proof fn law_what_can_be_encoded(msg: DKGMessage, fits: bool)
    requires
        call_ensures(DKGMessage::is_encodable, (&msg,), fits),
    ensures
        ({
            let len = carried(msg.payload).len();
            fits <==> {
                &&& msg.payload is Other ==> msg.payload->Other_0.kind >= 3
                &&& 42 + prefix_width(len) + len <= u32::MAX
            }
        }),
        fits ==> call_requires(DKGMessage::encode, (&msg,)),
{
    crate::scale::lemma_le_bytes_value_8(msg.round_id as nat);
    crate::scale::lemma_prefix_value(carried(msg.payload).len());
}

} // verus!
