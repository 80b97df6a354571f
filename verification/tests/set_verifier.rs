use dkg_gadget::set_verifier::{
    create, create_with_header, decode_proposal_header, Address, ProposalHeader, ValidationError,
    VerifierProposal,
};

fn counting_data(len: usize) -> Vec<u8> {
    (0..len).map(|i| i as u8).collect()
}

fn length_error() -> ValidationError {
    ValidationError::InvalidParameter("Proposal data must be 60 bytes".to_string())
}

#[test]
fn create_reads_every_field_at_its_place() {
    let data = counting_data(60);
    let proposal = create(&data).unwrap();
    assert_eq!(proposal.header.resource_id.to_vec(), data[0..32].to_vec());
    assert_eq!(proposal.header.function_sig, [32, 33, 34, 35]);
    assert_eq!(proposal.header.nonce, [36, 37, 38, 39]);
    assert_eq!(proposal.new_verifier_address.bytes.to_vec(), data[40..60].to_vec());
}

#[test]
fn create_hands_out_the_address_of_the_ethereum_types() {
    let mut data = vec![0u8; 40];
    data.extend_from_slice(&[0xab; 20]);
    let proposal = create(&data).unwrap();
    let address = ethereum_types::Address::from(proposal.new_verifier_address.bytes);
    assert_eq!(format!("{:?}", address), "0xabababababababababababababababababababab");
}

#[test]
fn create_refuses_other_lengths() {
    for len in [0usize, 40, 59, 61, 120] {
        assert_eq!(create(&counting_data(len)), Err(length_error()));
    }
}

#[test]
fn header_errors_are_passed_on() {
    let refused = ValidationError::InvalidParameter("unknown chain".to_string());
    let proposal: Result<VerifierProposal<u8>, ValidationError> =
        create_with_header(&counting_data(60), Err(refused));
    assert_eq!(
        proposal,
        Err(ValidationError::InvalidParameter("unknown chain".to_string()))
    );
}

#[test]
fn length_is_checked_before_the_header() {
    let refused = ValidationError::InvalidParameter("unknown chain".to_string());
    let proposal: Result<VerifierProposal<u8>, ValidationError> =
        create_with_header(&counting_data(59), Err(refused));
    assert_eq!(proposal, Err(length_error()));
}

#[test]
fn any_decoded_header_is_kept() {
    let proposal = create_with_header(&counting_data(60), Ok(7u8)).unwrap();
    assert_eq!(proposal.header, 7);
    assert_eq!(proposal.new_verifier_address.bytes[0], 40);
    assert_eq!(proposal.new_verifier_address.bytes[19], 59);
}

#[test]
fn proposal_bytes_decode_to_the_same_proposal() {
    let header = ProposalHeader {
        resource_id: [1; 32],
        function_sig: [2, 3, 4, 5],
        nonce: [0, 0, 0, 9],
    };
    let address = Address { bytes: [6; 20] };
    let mut data = Vec::new();
    data.extend_from_slice(&header.resource_id);
    data.extend_from_slice(&header.function_sig);
    data.extend_from_slice(&header.nonce);
    data.extend_from_slice(&address.bytes);
    let proposal = create(&data).unwrap();
    assert_eq!(proposal.header, header);
    assert_eq!(proposal.new_verifier_address, address);
    assert_eq!(decode_proposal_header(&data), header);
}
