use dicom_ul::asso::{
    Association, AssociationOptions, ReadOutcome, SupportedContext,
};
use dicom_ul::error::Error;
use dicom_ul::fsm::State;
use dicom_ul::pdu::{
    AbortRQContainer, AbortRQSource, AssociateRQContainer, PDataContainer, PDataValue,
    PDataValueType, PresentationContextProposed, PresentationContextResultReason,
    UserVariableItem, PDU,
};

#[test]
fn can_negotiate_abstract_syntax() {
    let proposed_presentation_context = PresentationContextProposed {
        id: 1,
        abstract_syntax: b"abstract 1".to_vec(),
        transfer_syntaxes: vec![b"transfer 1".to_vec(), b"transfer 2".to_vec()],
    };
    let supported_presentation_contexts = vec![SupportedContext {
        abstract_syntax: b"abstract 1".to_vec(),
        transfer_syntaxes: vec![b"transfer 2".to_vec(), b"transfer 1".to_vec()],
        scp_priority: false,
    }];
    let accepted_presentation_context =
        proposed_presentation_context.accept(&supported_presentation_contexts);

    assert_eq!(accepted_presentation_context.id, 1);
    assert_eq!(
        accepted_presentation_context.reason,
        PresentationContextResultReason::Acceptance
    );
    assert_eq!(accepted_presentation_context.transfer_syntax, b"transfer 1".to_vec());

    let supported_presentation_contexts = vec![SupportedContext {
        abstract_syntax: b"abstract 1".to_vec(),
        transfer_syntaxes: vec![b"transfer 2".to_vec(), b"transfer 1".to_vec()],
        scp_priority: true,
    }];
    let accepted_presentation_context =
        proposed_presentation_context.accept(&supported_presentation_contexts);

    assert_eq!(accepted_presentation_context.id, 1);
    assert_eq!(
        accepted_presentation_context.reason,
        PresentationContextResultReason::Acceptance
    );
    assert_eq!(accepted_presentation_context.transfer_syntax, b"transfer 2".to_vec());
}

#[test]
fn can_indicate_abstract_syntax_not_supported() {
    let proposed_presentation_context = PresentationContextProposed {
        id: 1,
        abstract_syntax: b"abstract 1".to_vec(),
        transfer_syntaxes: vec![b"transfer 1".to_vec(), b"transfer 2".to_vec()],
    };
    let supported_presentation_contexts = vec![SupportedContext {
        abstract_syntax: b"abstract 2".to_vec(),
        transfer_syntaxes: vec![b"transfer 2".to_vec(), b"transfer 1".to_vec()],
        scp_priority: false,
    }];
    let accepted_presentation_context =
        proposed_presentation_context.accept(&supported_presentation_contexts);

    assert_eq!(accepted_presentation_context.id, 1);
    assert_eq!(
        accepted_presentation_context.reason,
        PresentationContextResultReason::AbstractSyntaxNotSupported
    );
    assert_eq!(accepted_presentation_context.transfer_syntax, b"".to_vec());
}

#[test]
fn can_indicate_transfer_syntax_not_supported() {
    let proposed_presentation_context = PresentationContextProposed {
        id: 1,
        abstract_syntax: b"abstract 1".to_vec(),
        transfer_syntaxes: vec![b"transfer 1".to_vec(), b"transfer 2".to_vec()],
    };
    let supported_presentation_contexts = vec![SupportedContext {
        abstract_syntax: b"abstract 1".to_vec(),
        transfer_syntaxes: vec![b"transfer 3".to_vec(), b"transfer 4".to_vec()],
        scp_priority: false,
    }];
    let accepted_presentation_context =
        proposed_presentation_context.accept(&supported_presentation_contexts);

    assert_eq!(accepted_presentation_context.id, 1);
    assert_eq!(
        accepted_presentation_context.reason,
        PresentationContextResultReason::TransferSyntaxesNotSupported
    );
    assert_eq!(accepted_presentation_context.transfer_syntax, b"".to_vec());
}

fn echo_rq() -> AssociateRQContainer {
    AssociateRQContainer {
        protocol_version: 1,
        calling_ae_title: b"ECHOSCU".to_vec(),
        called_ae_title: b"ECHOSCP".to_vec(),
        application_context_name: b"1.2.840.10008.3.1.1.1".to_vec(),
        presentation_contexts: vec![PresentationContextProposed {
            id: 1,
            abstract_syntax: b"1.2.840.10008.1.1".to_vec(),
            transfer_syntaxes: vec![
                b"1.2.840.10008.1.2".to_vec(),
                b"1.2.840.10008.1.2.1".to_vec(),
            ],
        }],
        user_variables: Vec::new(),
    }
}

fn echo_options() -> AssociationOptions {
    let mut options = AssociationOptions::default();
    options
        .add_supported_context(
            b"1.2.840.10008.1.1".to_vec(),
            vec![b"1.2.840.10008.1.2".to_vec(), b"1.2.840.10008.1.2.1".to_vec()],
            false,
        )
        .unwrap();
    options
}

#[test]
fn accepts_an_echo_association() {
    let mut association = Association::receive_association(echo_options()).unwrap();
    assert_eq!(association.state_machine.state, State::State02);

    association
        .continue_receive_association(ReadOutcome::Pdu(PDU::AssociationRQ(echo_rq())))
        .unwrap();
    assert_eq!(association.state_machine.state, State::State06);
    assert_eq!(association.accepted_contexts.len(), 1);
    assert_eq!(association.accepted_contexts[0].id, 1);
    assert_eq!(
        association.accepted_contexts[0].transfer_syntax,
        b"1.2.840.10008.1.2".to_vec()
    );

    let outgoing = association.take_outgoing();
    assert_eq!(outgoing.len(), 1);
    match &outgoing[0] {
        PDU::AssociationAC(ac) => {
            assert_eq!(ac.presentation_contexts.len(), 1);
            assert_eq!(
                ac.presentation_contexts[0].reason,
                PresentationContextResultReason::Acceptance
            );
            assert_eq!(
                ac.presentation_contexts[0].transfer_syntax,
                b"1.2.840.10008.1.2".to_vec()
            );
            assert!(matches!(ac.user_variables[0], UserVariableItem::MaxLength(16384)));
        },
        other => panic!("expected an AC, found {:?}", other),
    }
}

#[test]
fn rejects_an_unknown_abstract_syntax_but_accepts_the_association() {
    let mut rq = echo_rq();
    rq.presentation_contexts[0].abstract_syntax = b"1.2.840.10008.5.1.4.1.1.2".to_vec();

    let mut association = Association::receive_association(echo_options()).unwrap();
    association
        .continue_receive_association(ReadOutcome::Pdu(PDU::AssociationRQ(rq)))
        .unwrap();
    assert_eq!(association.state_machine.state, State::State06);
    assert_eq!(association.accepted_contexts.len(), 0);

    let outgoing = association.take_outgoing();
    match &outgoing[0] {
        PDU::AssociationAC(ac) => {
            assert_eq!(ac.presentation_contexts.len(), 1);
            assert_eq!(
                ac.presentation_contexts[0].reason,
                PresentationContextResultReason::AbstractSyntaxNotSupported
            );
            assert_eq!(ac.presentation_contexts[0].transfer_syntax, b"".to_vec());
        },
        other => panic!("expected an AC, found {:?}", other),
    }
}

#[test]
fn peer_abort_in_established_surfaces_and_shuts_down() {
    let mut association = Association::receive_association(echo_options()).unwrap();
    association
        .continue_receive_association(ReadOutcome::Pdu(PDU::AssociationRQ(echo_rq())))
        .unwrap();
    association.take_outgoing();

    let r = association.read_pdata(ReadOutcome::Pdu(PDU::AbortRQ(AbortRQContainer {
        source: AbortRQSource::ServiceUser,
    })));
    assert!(matches!(r, Err(Error::PeerAbortedAssociation)));
    assert_eq!(association.state_machine.state, State::State01);
    assert!(association.wants_shutdown);
}

#[test]
fn unexpected_pdu_while_awaiting_rq_sends_abort() {
    let mut association = Association::receive_association(echo_options()).unwrap();

    let r = association.continue_receive_association(ReadOutcome::Pdu(PDU::ReleaseRQ));
    assert_eq!(r, Err(Error::UnexpectedState(State::State13)));
    assert_eq!(association.state_machine.state, State::State13);

    let outgoing = association.take_outgoing();
    assert_eq!(outgoing.len(), 1);
    match &outgoing[0] {
        PDU::AbortRQ(c) => assert_eq!(c.source, AbortRQSource::ServiceUser),
        other => panic!("expected an abort, found {:?}", other),
    }
}

#[test]
fn eof_before_the_request_reports_no_pdu() {
    let mut association = Association::receive_association(echo_options()).unwrap();
    let r = association.continue_receive_association(ReadOutcome::Eof);
    assert_eq!(r, Err(Error::NoPDUAvailable));
    assert_eq!(association.state_machine.state, State::State01);
}

#[test]
fn read_pdata_hands_back_the_received_container() {
    let mut association = Association::receive_association(echo_options()).unwrap();
    association
        .continue_receive_association(ReadOutcome::Pdu(PDU::AssociationRQ(echo_rq())))
        .unwrap();
    association.take_outgoing();

    let pdata = PDataContainer {
        data: vec![PDataValue {
            presentation_context_id: 1,
            value_type: PDataValueType::Command,
            is_last: true,
            data: vec![1, 2, 3],
        }],
    };
    let got = association.read_pdata(ReadOutcome::Pdu(PDU::PData(pdata))).unwrap();
    assert_eq!(got.data.len(), 1);
    assert_eq!(got.data[0].data, vec![1, 2, 3]);
    assert_eq!(association.state_machine.state, State::State06);
}

#[test]
fn abort_association_queues_an_abort() {
    let mut association = Association::receive_association(echo_options()).unwrap();
    association
        .continue_receive_association(ReadOutcome::Pdu(PDU::AssociationRQ(echo_rq())))
        .unwrap();
    association.take_outgoing();

    association.abort_association().unwrap();
    assert_eq!(association.state_machine.state, State::State13);
    let outgoing = association.take_outgoing();
    assert_eq!(outgoing.len(), 1);
    assert!(matches!(&outgoing[0], PDU::AbortRQ(_)));
}

#[test]
fn a_missing_request_after_examination_is_inconsistent() {
    let mut association = Association::receive_association(echo_options()).unwrap();
    association.state_machine.state = State::State03;
    association.association_rq = None;
    let r = association.continue_receive_association(ReadOutcome::TimedOut);
    assert!(matches!(r, Err(_)));

    let mut association = Association::receive_association(echo_options()).unwrap();
    association
        .continue_receive_association(ReadOutcome::Pdu(PDU::AssociationRQ(echo_rq())))
        .unwrap();
    association.association_rq = None;
    association.state_machine.state = State::State03;
    let r = association.continue_receive_association(ReadOutcome::Pdu(PDU::PData(
        PDataContainer { data: vec![] },
    )));
    assert!(matches!(r, Err(_)));
}

#[test]
fn a_timeout_before_the_request_expires_the_association() {
    let mut association = Association::receive_association(echo_options()).unwrap();
    let r = association.continue_receive_association(ReadOutcome::TimedOut);
    assert_eq!(r, Err(Error::UnexpectedState(State::State01)));
    assert_eq!(association.state_machine.state, State::State01);
}

#[test]
fn a_closed_transport_in_established_is_a_peer_abort() {
    let mut association = Association::receive_association(echo_options()).unwrap();
    association
        .continue_receive_association(ReadOutcome::Pdu(PDU::AssociationRQ(echo_rq())))
        .unwrap();
    association.take_outgoing();

    let r = association.read_pdata(ReadOutcome::Eof);
    assert!(matches!(r, Err(Error::PeerAbortedAssociation)));
    assert_eq!(association.state_machine.state, State::State01);
    assert!(association.wants_shutdown);
}
