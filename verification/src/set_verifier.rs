//! Decoding a proposal to set a new verifier on an EVM chain.
use crate::bytes::array_at;
use vstd::prelude::*;

verus! {

/// Why a proposal is not valid.
#[derive(Debug, PartialEq, Eq)]
pub enum ValidationError {
    InvalidParameter(String),
}

/// The part that all proposals start with.
#[derive(Clone, Copy, Debug, PartialEq, Eq)]
pub struct ProposalHeader {
    pub resource_id: [u8; 32],
    pub function_sig: [u8; 4],
    pub nonce: [u8; 4],
}

/// An EVM address.
#[derive(Clone, Copy, Debug, PartialEq, Eq)]
pub struct Address {
    pub bytes: [u8; 20],
}

/// A proposal to set a new verifier. `H` is the type of its decoded header.
#[derive(Debug, PartialEq, Eq)]
pub struct VerifierProposal<H> {
    pub header: H,
    pub new_verifier_address: Address,
}

/// Mathematical view of a [`ProposalHeader`].
#[verifier::ext_equal]
pub struct ProposalHeaderView {
    pub resource_id: Seq<u8>,
    pub function_sig: Seq<u8>,
    pub nonce: Seq<u8>,
}

impl View for ProposalHeader {
    type V = ProposalHeaderView;

    open spec fn view(&self) -> ProposalHeaderView {
        ProposalHeaderView {
            resource_id: self.resource_id@,
            function_sig: self.function_sig@,
            nonce: self.nonce@,
        }
    }
}

/// The header that `data` starts with.
pub open spec fn header_of(data: Seq<u8>) -> ProposalHeaderView {
    ProposalHeaderView {
        resource_id: data.subrange(0, 32),
        function_sig: data.subrange(32, 36),
        nonce: data.subrange(36, 40),
    }
}

/// The address that stands in `data` behind the header.
pub open spec fn verifier_of(data: Seq<u8>) -> Seq<u8> {
    data.subrange(40, 60)
}

/// The bytes of a proposal.
pub open spec fn proposal_bytes(header: ProposalHeaderView, new_verifier: Seq<u8>) -> Seq<u8> {
    header.resource_id + header.function_sig + header.nonce + new_verifier
}

/// `error` says that the proposal has the wrong length.
pub open spec fn is_length_error(error: ValidationError) -> bool {
    error->InvalidParameter_0@ == "Proposal data must be 60 bytes"@
}

/// Calls `From<[u8; 20]>` of `ethereum_types::Address`, which keeps the bytes as they
/// are, and `to_fixed_bytes`, which hands them out.
#[verifier::external_body]
fn address_from(bytes: [u8; 20]) -> (address: [u8; 20])
    ensures
        address@ == bytes@,
{
    ethereum_types::Address::from(bytes).to_fixed_bytes()
}

/// Reads the header that `data` starts with: the resource id [0..32], the function
/// signature [32..36] and the nonce [36..40].
pub fn decode_proposal_header(data: &[u8]) -> (header: ProposalHeader)
    requires
        data@.len() >= 40,
    ensures
        header@ == header_of(data@),
{
    ProposalHeader {
        resource_id: array_at(data, 0),
        function_sig: array_at(data, 32),
        nonce: array_at(data, 36),
    }
}

/// Puts a decoded header together with the address that stands behind it in `data`.
/// The length of `data` is checked before the header is looked at.
pub fn create_with_header<H>(data: &[u8], header: Result<H, ValidationError>) -> (proposal: Result<
    VerifierProposal<H>,
    ValidationError,
>)
    ensures
        match (data@.len() == 60, header) {
            (false, _) => proposal is Err && is_length_error(proposal->Err_0),
            (true, Err(error)) => proposal == Err::<VerifierProposal<H>, ValidationError>(error),
            (true, Ok(header)) => {
                &&& proposal is Ok
                &&& proposal->Ok_0.header == header
                &&& proposal->Ok_0.new_verifier_address.bytes@ == verifier_of(data@)
            },
        },
{
    if data.len() != 60 {
        return Err(
            ValidationError::InvalidParameter("Proposal data must be 60 bytes".to_string()),
        );
    }
    match header {
        Err(error) => Err(error),
        Ok(header) => {
            let new_verifier_bytes: [u8; 20] = array_at(data, 40);
            let new_verifier_address = Address { bytes: address_from(new_verifier_bytes) };
            Ok(VerifierProposal { header, new_verifier_address })
        },
    }
}

/// Decodes a proposal. Its data is:
///
/// - the resource id, 32 bytes [0..32]
/// - the function signature, 4 bytes [32..36]
/// - the nonce, 4 bytes [36..40]
/// - the new verifier, 20 bytes [40..60]
pub fn create(data: &[u8]) -> (proposal: Result<VerifierProposal<ProposalHeader>, ValidationError>)
    ensures
        proposal is Ok <==> data@.len() == 60,
        proposal matches Ok(proposal) ==> {
            &&& proposal.header@ == header_of(data@)
            &&& proposal.new_verifier_address.bytes@ == verifier_of(data@)
        },
        proposal matches Err(error) ==> is_length_error(error),
{
    if data.len() != 60 {
        return Err(
            ValidationError::InvalidParameter("Proposal data must be 60 bytes".to_string()),
        );
    }
    let header = decode_proposal_header(data);
    create_with_header(data, Ok(header))
}

/// A proposal holds all of its data: its bytes, put together again, are the data it was
/// decoded from.
pub proof fn law_decoding_loses_nothing(data: Seq<u8>)
    requires
        data.len() == 60,
    ensures
        proposal_bytes(header_of(data), verifier_of(data)) == data,
{
    assert(proposal_bytes(header_of(data), verifier_of(data)) =~= data);
}

/// Every header and address can be proposed: decoding their bytes gives them back.
pub proof fn law_every_proposal_decodes(header: ProposalHeader, new_verifier: Address)
    ensures
        proposal_bytes(header@, new_verifier.bytes@).len() == 60,
        header_of(proposal_bytes(header@, new_verifier.bytes@)) == header@,
        verifier_of(proposal_bytes(header@, new_verifier.bytes@)) == new_verifier.bytes@,
{
    let data = proposal_bytes(header@, new_verifier.bytes@);
    assert(header_of(data).resource_id =~= header@.resource_id);
    assert(header_of(data).function_sig =~= header@.function_sig);
    assert(header_of(data).nonce =~= header@.nonce);
    assert(verifier_of(data) =~= new_verifier.bytes@);
}

} // verus!
