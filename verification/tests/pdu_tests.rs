use dicom_ul::error::Error;
use dicom_ul::pdu::{
    AbortRQContainer, AbortRQServiceProviderReason, AbortRQSource, AssociateACContainer,
    AssociateRJContainer, AssociateRQContainer, AssociationRJResult,
    AssociationRJServiceUserReason, AssociationRJSource, PDataContainer, PDataValue,
    PDataValueType, PresentationContextProposed, PresentationContextResult,
    PresentationContextResultReason, UserVariableItem, PDU,
};
use dicom_ul::reader::{read_pdu, read_pdu_header, DEFAULT_MAX_PDU};
use dicom_ul::writer::{write_chunk_u16, write_chunk_u32, write_pdu};

#[test]
fn can_write_chunks_with_preceding_u32_length() {
    let mut body: Vec<u8> = vec![0x02];
    let inner_body: Vec<u8> = vec![0x03];
    write_chunk_u32(&mut body, &inner_body).unwrap();
    let mut bytes: Vec<u8> = Vec::new();
    write_chunk_u32(&mut bytes, &body).unwrap();

    assert_eq!(bytes.len(), 10);
    assert_eq!(bytes, &[0, 0, 0, 6, 2, 0, 0, 0, 1, 3]);
}

#[test]
fn can_write_chunks_with_preceding_u16_length() {
    let mut body: Vec<u8> = vec![0x02];
    let inner_body: Vec<u8> = vec![0x03];
    write_chunk_u16(&mut body, &inner_body).unwrap();
    let mut bytes: Vec<u8> = Vec::new();
    write_chunk_u16(&mut bytes, &body).unwrap();

    assert_eq!(bytes.len(), 6);
    assert_eq!(bytes, &[0, 4, 2, 0, 1, 3]);
}

#[test]
fn can_read_write_associate_rq() {
    let association_rq = PDU::AssociationRQ(AssociateRQContainer {
        protocol_version: 2,
        calling_ae_title: b"calling ae".to_vec(),
        called_ae_title: b"called ae".to_vec(),
        application_context_name: b"application context name".to_vec(),
        presentation_contexts: vec![
            PresentationContextProposed {
                id: 1,
                abstract_syntax: b"abstract 1".to_vec(),
                transfer_syntaxes: vec![b"transfer 1".to_vec(), b"transfer 2".to_vec()],
            },
            PresentationContextProposed {
                id: 3,
                abstract_syntax: b"abstract 2".to_vec(),
                transfer_syntaxes: vec![b"transfer 3".to_vec(), b"transfer 4".to_vec()],
            },
        ],
        user_variables: vec![
            UserVariableItem::ImplementationClassUID(b"class uid".to_vec()),
            UserVariableItem::ImplementationVersionName(b"version name".to_vec()),
            UserVariableItem::MaxLength(23),
        ],
    });

    let bytes = write_pdu(&association_rq).unwrap();
    let result = read_pdu(&bytes, DEFAULT_MAX_PDU).unwrap();

    if let PDU::AssociationRQ(data) = result {
        assert_eq!(data.protocol_version, 2);
        assert_eq!(data.calling_ae_title, b"calling ae".to_vec());
        assert_eq!(data.called_ae_title, b"called ae".to_vec());
        assert_eq!(data.application_context_name, b"application context name".to_vec());
        assert_eq!(data.presentation_contexts.len(), 2);
        assert_eq!(data.presentation_contexts[0].abstract_syntax, b"abstract 1".to_vec());
        assert_eq!(data.presentation_contexts[0].transfer_syntaxes.len(), 2);
        assert_eq!(data.presentation_contexts[0].transfer_syntaxes[0], b"transfer 1".to_vec());
        assert_eq!(data.presentation_contexts[0].transfer_syntaxes[1], b"transfer 2".to_vec());
        assert_eq!(data.presentation_contexts[1].abstract_syntax, b"abstract 2".to_vec());
        assert_eq!(data.presentation_contexts[1].transfer_syntaxes.len(), 2);
        assert_eq!(data.presentation_contexts[1].transfer_syntaxes[0], b"transfer 3".to_vec());
        assert_eq!(data.presentation_contexts[1].transfer_syntaxes[1], b"transfer 4".to_vec());
        assert_eq!(data.user_variables.len(), 3);
        assert!(matches!(
            data.user_variables[0],
            UserVariableItem::ImplementationClassUID(_)
        ));
        assert!(matches!(
            data.user_variables[1],
            UserVariableItem::ImplementationVersionName(_)
        ));
        assert!(matches!(data.user_variables[2], UserVariableItem::MaxLength(_)));
    } else {
        assert!(false, "sd");
    }
}

#[test]
fn can_read_write_pdata() {
    let pdata_rq = PDU::PData(PDataContainer {
        data: vec![PDataValue {
            presentation_context_id: 3,
            value_type: PDataValueType::Command,
            is_last: true,
            data: vec![0, 0, 0, 0],
        }],
    });

    let bytes = write_pdu(&pdata_rq).unwrap();
    let result = read_pdu(&bytes, DEFAULT_MAX_PDU).unwrap();

    if let PDU::PData(data) = result {
        assert_eq!(data.data.len(), 1);
        assert_eq!(data.data[0].presentation_context_id, 3);
        assert!(matches!(data.data[0].value_type, PDataValueType::Command));
        assert!(data.data[0].is_last);
        assert_eq!(data.data[0].data, vec![0, 0, 0, 0]);
    } else {
        assert!(false, "sd");
    }
}

#[test]
fn round_trips_every_simple_pdu_kind() {
    let release_rq = write_pdu(&PDU::ReleaseRQ).unwrap();
    assert!(matches!(read_pdu(&release_rq, DEFAULT_MAX_PDU).unwrap(), PDU::ReleaseRQ));

    let release_rp = write_pdu(&PDU::ReleaseRP).unwrap();
    assert!(matches!(read_pdu(&release_rp, DEFAULT_MAX_PDU).unwrap(), PDU::ReleaseRP));

    let abort = PDU::AbortRQ(AbortRQContainer {
        source: AbortRQSource::ServiceProvider(AbortRQServiceProviderReason::UnexpectedPDU),
    });
    let abort_bytes = write_pdu(&abort).unwrap();
    match read_pdu(&abort_bytes, DEFAULT_MAX_PDU).unwrap() {
        PDU::AbortRQ(c) => assert_eq!(
            c.source,
            AbortRQSource::ServiceProvider(AbortRQServiceProviderReason::UnexpectedPDU)
        ),
        _ => panic!("wrong kind"),
    }

    let rj = PDU::AssociationRJ(AssociateRJContainer {
        result: AssociationRJResult::Transient,
        source: AssociationRJSource::ServiceUser(
            AssociationRJServiceUserReason::CalledAETitleNotRecognized,
        ),
    });
    let rj_bytes = write_pdu(&rj).unwrap();
    match read_pdu(&rj_bytes, DEFAULT_MAX_PDU).unwrap() {
        PDU::AssociationRJ(c) => {
            assert_eq!(c.result, AssociationRJResult::Transient);
            assert_eq!(
                c.source,
                AssociationRJSource::ServiceUser(
                    AssociationRJServiceUserReason::CalledAETitleNotRecognized
                )
            );
        },
        _ => panic!("wrong kind"),
    }

    let unknown = PDU::Unknown(dicom_ul::pdu::UnknownContainer {
        pdu_type: 0x7F,
        data: vec![9, 8, 7],
    });
    let unknown_bytes = write_pdu(&unknown).unwrap();
    match read_pdu(&unknown_bytes, DEFAULT_MAX_PDU).unwrap() {
        PDU::Unknown(c) => {
            assert_eq!(c.pdu_type, 0x7F);
            assert_eq!(c.data, vec![9, 8, 7]);
        },
        _ => panic!("wrong kind"),
    }
}

#[test]
fn oversized_declared_length_is_rejected() {
    let header: Vec<u8> = vec![0x01, 0x00, 0xFF, 0xFF, 0xFF, 0xFF];
    assert_eq!(read_pdu_header(&header, DEFAULT_MAX_PDU), Err(Error::PDUTooLarge));

    let mut bytes: Vec<u8> = vec![0x01, 0x00, 0xFF, 0xFF, 0xFF, 0xFF];
    bytes.extend_from_slice(&[0u8; 16]);
    assert!(matches!(read_pdu(&bytes, DEFAULT_MAX_PDU), Err(Error::PDUTooLarge)));
}

#[test]
fn truncated_pdu_is_invalid() {
    let bytes: Vec<u8> = vec![0x05, 0x00, 0x00];
    assert!(matches!(read_pdu(&bytes, DEFAULT_MAX_PDU), Err(Error::InvalidPDU)));

    let bytes: Vec<u8> = vec![0x05, 0x00, 0x00, 0x00, 0x00, 0x08, 0x00];
    assert!(matches!(read_pdu(&bytes, DEFAULT_MAX_PDU), Err(Error::InvalidPDU)));
}

#[test]
fn chunk_prefix_carries_the_body_length() {
    let mut out: Vec<u8> = Vec::new();
    let body: Vec<u8> = vec![7; 300];
    write_chunk_u16(&mut out, &body).unwrap();
    assert_eq!(((out[0] as usize) << 8) | out[1] as usize, 300);

    let mut out32: Vec<u8> = Vec::new();
    write_chunk_u32(&mut out32, &body).unwrap();
    let n = ((out32[0] as usize) << 24)
        | ((out32[1] as usize) << 16)
        | ((out32[2] as usize) << 8)
        | out32[3] as usize;
    assert_eq!(n, 300);
}

#[test]
fn round_trips_an_associate_ac() {
    let ac = PDU::AssociationAC(AssociateACContainer {
        protocol_version: 1,
        application_context_name: b"1.2.840.10008.3.1.1.1".to_vec(),
        presentation_contexts: vec![
            PresentationContextResult {
                id: 1,
                reason: PresentationContextResultReason::Acceptance,
                transfer_syntax: b"1.2.840.10008.1.2".to_vec(),
            },
            PresentationContextResult {
                id: 3,
                reason: PresentationContextResultReason::AbstractSyntaxNotSupported,
                transfer_syntax: Vec::new(),
            },
        ],
        user_variables: vec![UserVariableItem::MaxLength(16384)],
    });
    let bytes = write_pdu(&ac).unwrap();
    match read_pdu(&bytes, DEFAULT_MAX_PDU).unwrap() {
        PDU::AssociationAC(c) => {
            assert_eq!(c.protocol_version, 1);
            assert_eq!(c.application_context_name, b"1.2.840.10008.3.1.1.1".to_vec());
            assert_eq!(c.presentation_contexts.len(), 2);
            assert_eq!(
                c.presentation_contexts[0].reason,
                PresentationContextResultReason::Acceptance
            );
            assert_eq!(
                c.presentation_contexts[0].transfer_syntax,
                b"1.2.840.10008.1.2".to_vec()
            );
            assert_eq!(
                c.presentation_contexts[1].reason,
                PresentationContextResultReason::AbstractSyntaxNotSupported
            );
            assert_eq!(c.presentation_contexts[1].transfer_syntax, b"".to_vec());
            assert!(matches!(c.user_variables[0], UserVariableItem::MaxLength(16384)));
        },
        other => panic!("expected an AC, found {:?}", other),
    }
}
