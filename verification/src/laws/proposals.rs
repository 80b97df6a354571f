//! Laws of decoding proposals.
use crate::set_verifier::{
    create, create_with_header, decode_proposal_header, ProposalHeader, ValidationError,
    VerifierProposal,
};
use vstd::prelude::*;

verus! {

/// The error says that the proposal has the wrong length.
pub open spec fn blames_length(error: ValidationError) -> bool {
    match error {
        ValidationError::InvalidParameter(reason) => reason@ == "Proposal data must be 60 bytes"@,
    }
}

/// The header's fields, one after the other, are the bytes that the data starts with,
/// whatever follows.
pub proof fn law_header_comes_first(data: &[u8], header: ProposalHeader)
    requires
        call_ensures(decode_proposal_header, (data,), header),
        data@.len() >= 40,
    ensures
        header.resource_id@ + header.function_sig@ + header.nonce@ == data@.take(40),
        call_requires(decode_proposal_header, (data,)),
{
    assert(header.resource_id@ + header.function_sig@ + header.nonce@ =~= data@.take(40));
}

/// All data of the right length decodes, and none other does. Nothing of it is lost: the
/// header's fields and the address, one after the other, are the data.
pub proof fn law_decoded_proposals_are_their_data(
    data: &[u8],
    proposal: Result<VerifierProposal<ProposalHeader>, ValidationError>,
)
    requires
        call_ensures(create, (data,), proposal),
    ensures
        data@.len() == 60 ==> proposal is Ok,
        match proposal {
            Ok(proposal) => data@ == proposal.header.resource_id@ + proposal.header.function_sig@
                + proposal.header.nonce@ + proposal.new_verifier_address.bytes@,
            Err(error) => blames_length(error),
        },
        call_requires(create, (data,)),
{
    if proposal is Ok {
        let p = proposal->Ok_0;
        assert(data@ =~= p.header.resource_id@ + p.header.function_sig@ + p.header.nonce@
            + p.new_verifier_address.bytes@);
    }
}

/// With data of the right length, the header decides: its error is handed on, and every
/// header that was decoded is kept next to the data's last twenty bytes. Data of another
/// length is refused, whatever became of the header.
pub proof fn law_every_header_is_kept<H>(
    data: &[u8],
    header: Result<H, ValidationError>,
    proposal: Result<VerifierProposal<H>, ValidationError>,
)
    requires
        call_ensures(create_with_header::<H>, (data, header), proposal),
    ensures
        data@.len() != 60 ==> proposal is Err && blames_length(proposal->Err_0),
        data@.len() == 60 && header is Err ==> proposal is Err && proposal->Err_0 == header->Err_0,
        data@.len() == 60 && header is Ok ==> {
            &&& proposal is Ok
            &&& proposal->Ok_0.header == header->Ok_0
            &&& proposal->Ok_0.new_verifier_address.bytes@ == data@.skip(40)
        },
        call_requires(create_with_header::<H>, (data, header)),
{
    if data@.len() == 60 {
        assert(data@.skip(40) =~= data@.subrange(40, 60));
    }
}

} // verus!
