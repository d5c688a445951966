use dicom_ul::asso::{AcceptedContext, Association, AssociationOptions, ReadOutcome};
use dicom_ul::error::Error;
use dicom_ul::pdu::{PDataContainer, PDataValue, PDataValueType};
use dicom_ul::reassembly::DataSetAssembly;

fn pdv(context: u8, vt: PDataValueType, last: bool, data: Vec<u8>) -> PDataValue {
    PDataValue { presentation_context_id: context, value_type: vt, is_last: last, data }
}

fn container(values: Vec<PDataValue>) -> PDataContainer {
    PDataContainer { data: values }
}

#[test]
fn reassembles_three_fragments_in_order() {
    let mut assembly = DataSetAssembly::new(None);
    assembly.push_pdata(&container(vec![pdv(3, PDataValueType::Command, false, b"A".to_vec())]))
        .unwrap();
    assembly.push_pdata(&container(vec![pdv(3, PDataValueType::Command, false, b"B".to_vec())]))
        .unwrap();
    assert!(!assembly.is_complete());
    assembly.push_pdata(&container(vec![pdv(3, PDataValueType::Command, true, b"C".to_vec())]))
        .unwrap();
    assert!(assembly.is_complete());

    let (context, vt, bytes) = assembly.finish().unwrap();
    assert_eq!(context, 3);
    assert_eq!(vt, PDataValueType::Command);
    assert_eq!(bytes, b"ABC".to_vec());
}

#[test]
fn mixed_value_types_are_invalid() {
    let mut assembly = DataSetAssembly::new(None);
    assembly.push_pdata(&container(vec![pdv(3, PDataValueType::Command, false, vec![1])]))
        .unwrap();
    let r = assembly.push_pdata(&container(vec![pdv(3, PDataValueType::Data, true, vec![2])]));
    assert_eq!(r, Err(Error::InvalidPData));
}

#[test]
fn a_fragment_after_the_last_is_invalid() {
    let mut assembly = DataSetAssembly::new(None);
    let r = assembly.push_pdata(&container(vec![
        pdv(3, PDataValueType::Command, true, vec![1]),
        pdv(3, PDataValueType::Command, false, vec![2]),
    ]));
    assert_eq!(r, Err(Error::InvalidPData));
}

#[test]
fn changing_the_context_is_invalid() {
    let mut assembly = DataSetAssembly::new(None);
    assembly.push_pdata(&container(vec![pdv(3, PDataValueType::Command, false, vec![1])]))
        .unwrap();
    let r = assembly.push_pdata(&container(vec![pdv(5, PDataValueType::Command, true, vec![2])]));
    assert_eq!(r, Err(Error::InvalidPData));
}

#[test]
fn unexpected_value_type_is_reported() {
    let mut assembly = DataSetAssembly::new(Some(PDataValueType::Command));
    let r = assembly.push_pdata(&container(vec![pdv(3, PDataValueType::Data, true, vec![1])]));
    assert_eq!(r, Err(Error::UnexpectedPdvType));
}

#[test]
fn a_message_without_its_end_is_invalid() {
    let mut assembly = DataSetAssembly::new(None);
    assembly.push_pdata(&container(vec![pdv(3, PDataValueType::Command, false, vec![1])]))
        .unwrap();
    assert_eq!(assembly.finish().err(), Some(Error::InvalidPData));

    let empty = DataSetAssembly::new(None);
    assert_eq!(empty.finish().err(), Some(Error::InvalidPData));
}

#[test]
fn fragmented_command_concatenates_across_pdus() {
    let mut assembly = DataSetAssembly::new(None);
    assembly.push_pdata(&container(vec![pdv(1, PDataValueType::Command, false, vec![0x00, 0x01])]))
        .unwrap();
    assembly.push_pdata(&container(vec![pdv(1, PDataValueType::Command, true, vec![0x02, 0x03])]))
        .unwrap();
    let (context, vt, bytes) = assembly.finish().unwrap();
    assert_eq!(context, 1);
    assert_eq!(vt, PDataValueType::Command);
    assert_eq!(bytes, vec![0x00, 0x01, 0x02, 0x03]);
}

fn established_association() -> Association {
    let mut options = AssociationOptions::default();
    options
        .add_supported_context(
            b"1.2.840.10008.1.1".to_vec(),
            vec![b"1.2.840.10008.1.2".to_vec()],
            false,
        )
        .unwrap();
    let mut association = Association::receive_association(options).unwrap();
    association
        .continue_receive_association(ReadOutcome::Pdu(
            dicom_ul::pdu::PDU::AssociationRQ(dicom_ul::pdu::AssociateRQContainer {
                protocol_version: 1,
                calling_ae_title: b"SCU".to_vec(),
                called_ae_title: b"SCP".to_vec(),
                application_context_name: Vec::new(),
                presentation_contexts: vec![dicom_ul::pdu::PresentationContextProposed {
                    id: 1,
                    abstract_syntax: b"1.2.840.10008.1.1".to_vec(),
                    transfer_syntaxes: vec![b"1.2.840.10008.1.2".to_vec()],
                }],
                user_variables: Vec::new(),
            }),
        ))
        .unwrap();
    association.take_outgoing();
    association
}

#[test]
fn unknown_context_id_is_rejected_at_completion() {
    let association = established_association();
    let mut assembly = DataSetAssembly::new(None);
    assembly.push_pdata(&container(vec![pdv(99, PDataValueType::Command, true, vec![1])]))
        .unwrap();
    let r = association.complete_data_set(assembly);
    assert!(matches!(r.err(), Some(Error::InvalidPresentationContextId)));
}

#[test]
fn unknown_transfer_syntax_is_rejected_at_completion() {
    let mut association = established_association();
    association.accepted_contexts.push(AcceptedContext {
        id: 7,
        abstract_syntax: b"1.2.840.10008.1.1".to_vec(),
        transfer_syntax: b"9.9.9.999".to_vec(),
    });
    let mut assembly = DataSetAssembly::new(None);
    assembly.push_pdata(&container(vec![pdv(7, PDataValueType::Command, true, vec![1])]))
        .unwrap();
    let r = association.complete_data_set(assembly);
    assert!(matches!(r.err(), Some(Error::UnsupportedTransferSyntax)));
}

#[test]
fn undecodable_bytes_are_rejected_by_the_decoder() {
    let association = established_association();
    let mut assembly = DataSetAssembly::new(None);
    let truncated_element = vec![0x08, 0x00, 0x00, 0x00, 0x00, 0x00, 0x10, 0x00];
    assembly.push_pdata(&container(vec![pdv(1, PDataValueType::Command, true, truncated_element)]))
        .unwrap();
    let r = association.complete_data_set(assembly);
    assert!(matches!(r.err(), Some(Error::DataSetDecoding)));
}

#[test]
fn fragments_a_data_set_and_marks_only_the_last() {
    let data: Vec<u8> = (0u8..10).collect();
    let pdvs = dicom_ul::reassembly::fragment_data_set(5, PDataValueType::Data, &data, 4).unwrap();
    assert_eq!(pdvs.len(), 3);
    assert_eq!(pdvs[0].data, vec![0, 1, 2, 3]);
    assert_eq!(pdvs[1].data, vec![4, 5, 6, 7]);
    assert_eq!(pdvs[2].data, vec![8, 9]);
    assert!(!pdvs[0].is_last);
    assert!(!pdvs[1].is_last);
    assert!(pdvs[2].is_last);
    assert!(pdvs.iter().all(|p| p.presentation_context_id == 5));
    assert!(pdvs.iter().all(|p| p.value_type == PDataValueType::Data));

    let empty: Vec<u8> = Vec::new();
    let pdvs = dicom_ul::reassembly::fragment_data_set(1, PDataValueType::Command, &empty, 4)
        .unwrap();
    assert_eq!(pdvs.len(), 1);
    assert!(pdvs[0].is_last);
    assert_eq!(pdvs[0].data, Vec::<u8>::new());

    let r = dicom_ul::reassembly::fragment_data_set(1, PDataValueType::Command, &empty, 0);
    assert_eq!(r.err(), Some(Error::InvalidMaxPDU));
}

#[test]
fn fragmentation_and_reassembly_are_inverse() {
    let data: Vec<u8> = (0u8..23).collect();
    let pdvs = dicom_ul::reassembly::fragment_data_set(1, PDataValueType::Command, &data, 7)
        .unwrap();
    let mut assembly = DataSetAssembly::new(Some(PDataValueType::Command));
    assembly.push_pdata(&PDataContainer { data: pdvs }).unwrap();
    let (context, vt, bytes) = assembly.finish().unwrap();
    assert_eq!(context, 1);
    assert_eq!(vt, PDataValueType::Command);
    assert_eq!(bytes, data);
}
