use dicom_core::value::PrimitiveValue;
use dicom_core::{Tag, VR};
use dicom_object::mem::{InMemDicomObject, InMemElement};
use dicom_ul::dimse::{command_from_attributes, Command, EchoStatus};
use dicom_ul::error::Error;

#[test]
fn echo_status_values_map_to_their_variants() {
    assert_eq!(EchoStatus::from(0x0000), Ok(EchoStatus::Success));
    assert_eq!(EchoStatus::from(0x0122), Ok(EchoStatus::Refused));
    assert_eq!(EchoStatus::from(0x0210), Ok(EchoStatus::DuplicateInvocation));
    assert_eq!(EchoStatus::from(0x0212), Ok(EchoStatus::MistypedArgument));
    assert_eq!(EchoStatus::from(0x0211), Ok(EchoStatus::UnrecognizedOperation));
    assert_eq!(EchoStatus::from(0x0001), Err(Error::InvalidCommandData));
}

#[test]
fn echo_request_attributes_build_the_command() {
    let r = command_from_attributes(0x0030, 0x0102, 7, b"1.2.840.10008.1.1".to_vec()).unwrap();
    match r {
        Command::EchoRq(e) => {
            assert_eq!(e.message_id, 7);
            assert_eq!(e.affected_sop_class_uid, b"1.2.840.10008.1.1".to_vec());
        },
    }
}

#[test]
fn echo_request_with_a_data_set_is_invalid() {
    let r = command_from_attributes(0x0030, 0x0101, 7, b"1.2.840.10008.1.1".to_vec());
    assert!(matches!(r.err(), Some(Error::InvalidCommandData)));
}

#[test]
fn unknown_command_fields_are_rejected() {
    let r = command_from_attributes(0x0001, 0x0102, 7, b"1.2.840.10008.1.1".to_vec());
    assert!(matches!(r.err(), Some(Error::BadCommandType)));
}

fn echo_command_object() -> InMemDicomObject {
    InMemDicomObject::from_element_iter(vec![
        InMemElement::new(Tag(0x0000, 0x0002), VR::UI, PrimitiveValue::from("1.2.840.10008.1.1")),
        InMemElement::new(Tag(0x0000, 0x0100), VR::US, PrimitiveValue::from(0x0030u16)),
        InMemElement::new(Tag(0x0000, 0x0110), VR::US, PrimitiveValue::from(42u16)),
        InMemElement::new(Tag(0x0000, 0x0800), VR::US, PrimitiveValue::from(0x0102u16)),
    ])
}

#[test]
fn reads_an_echo_command_from_a_decoded_object() {
    let obj = echo_command_object();
    let command = Command::from_command_data_set(&obj).unwrap();
    match command {
        Command::EchoRq(e) => {
            assert_eq!(e.message_id, 42);
            assert_eq!(e.affected_sop_class_uid, b"1.2.840.10008.1.1".to_vec());
        },
    }
}

#[test]
fn a_command_object_missing_attributes_is_invalid() {
    let obj = InMemDicomObject::from_element_iter(vec![InMemElement::new(
        Tag(0x0000, 0x0110),
        VR::US,
        PrimitiveValue::from(42u16),
    )]);
    let r = Command::from_command_data_set(&obj);
    assert!(matches!(r.err(), Some(Error::InvalidCommandData)));
}

#[test]
fn encoding_commands_is_not_provided() {
    let command = command_from_attributes(0x0030, 0x0102, 7, Vec::new()).unwrap();
    assert!(matches!(command.to_command_data_set().err(), Some(Error::InvalidCommandData)));
}

#[test]
fn command_type_is_decided_before_the_other_attributes() {
    // A non-echo command field with no message identifier present: the
    // command type decides first.
    let obj = InMemDicomObject::from_element_iter(vec![
        InMemElement::new(Tag(0x0000, 0x0100), VR::US, PrimitiveValue::from(0x0001u16)),
        InMemElement::new(Tag(0x0000, 0x0800), VR::US, PrimitiveValue::from(0x0102u16)),
    ]);
    let r = Command::from_command_data_set(&obj);
    assert!(matches!(r.err(), Some(Error::BadCommandType)));

    // An echo request announcing a data set, again without a message
    // identifier: the data set check decides before the identifier is read.
    let obj = InMemDicomObject::from_element_iter(vec![
        InMemElement::new(Tag(0x0000, 0x0100), VR::US, PrimitiveValue::from(0x0030u16)),
        InMemElement::new(Tag(0x0000, 0x0800), VR::US, PrimitiveValue::from(0x0101u16)),
    ]);
    let r = Command::from_command_data_set(&obj);
    assert!(matches!(r.err(), Some(Error::InvalidCommandData)));
}
