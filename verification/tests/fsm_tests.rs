use dicom_ul::error::Error;
use dicom_ul::fsm::{
    Actions, AssociationExaminationResponse, AssociationRole, Event, State, StateMachine,
};
use dicom_ul::pdu::{
    AssociateACContainer, AssociateRJContainer, AssociateRQContainer, PDataContainer,
};

struct RecordingActions {
    invoked: Vec<&'static str>,
}

impl RecordingActions {
    fn new() -> RecordingActions {
        RecordingActions { invoked: Vec::new() }
    }
}

impl Actions for RecordingActions {
    fn ae_1_transport_connect(&mut self) -> Result<(), Error> {
        self.invoked.push("ae1");
        Ok(())
    }
    fn ae_2_send_association_rq_pdu(&mut self) -> Result<(), Error> {
        self.invoked.push("ae2");
        Ok(())
    }
    fn ae_3_association_confirmation_ac(&mut self) -> Result<(), Error> {
        self.invoked.push("ae3");
        Ok(())
    }
    fn ae_4_associate_confirmation_rj(&mut self) -> Result<(), Error> {
        self.invoked.push("ae4");
        Ok(())
    }
    fn ae_5_transport_connect_response(&mut self) -> Result<(), Error> {
        self.invoked.push("ae5");
        Ok(())
    }
    fn ae_6_examine_associate_rq(
        &mut self,
        _association_rq: AssociateRQContainer,
    ) -> Result<AssociationExaminationResponse, Error> {
        self.invoked.push("ae6");
        Ok(AssociationExaminationResponse::Accept)
    }
    fn ae_7_send_association_ac(&mut self, _ac: AssociateACContainer) -> Result<(), Error> {
        self.invoked.push("ae7");
        Ok(())
    }
    fn ae_8_send_association_rj(&mut self, _rj: AssociateRJContainer) -> Result<(), Error> {
        self.invoked.push("ae8");
        Ok(())
    }
    fn dt_1_send_pdata(&mut self, _pdata: PDataContainer) -> Result<(), Error> {
        self.invoked.push("dt1");
        Ok(())
    }
    fn dt_2_indicate_pdata(&mut self, _pdata: PDataContainer) -> Result<(), Error> {
        self.invoked.push("dt2");
        Ok(())
    }
    fn aa_1_send_association_abort(&mut self) -> Result<(), Error> {
        self.invoked.push("aa1");
        Ok(())
    }
    fn aa_2_close_transport(&mut self) -> Result<(), Error> {
        self.invoked.push("aa2");
        Ok(())
    }
    fn aa_3_indicate_peer_aborted(&mut self) -> Result<(), Error> {
        self.invoked.push("aa3");
        Err(Error::PeerAbortedAssociation)
    }
    fn aa_4_indicate_ap_abort(&mut self) -> Result<(), Error> {
        self.invoked.push("aa4");
        Err(Error::PeerAbortedAssociation)
    }
    fn aa_5_stop_artim_timer(&mut self) -> Result<(), Error> {
        self.invoked.push("aa5");
        Ok(())
    }
    fn aa_6_ignore_pdu(&mut self) -> Result<(), Error> {
        self.invoked.push("aa6");
        Ok(())
    }
    fn aa_7_send_abort(&mut self) -> Result<(), Error> {
        self.invoked.push("aa7");
        Ok(())
    }
    fn aa_8_unrecognized_pdu_send_abort(&mut self) -> Result<(), Error> {
        self.invoked.push("aa8");
        Ok(())
    }
    fn ar_1_send_release_rq(&mut self) -> Result<(), Error> {
        self.invoked.push("ar1");
        Ok(())
    }
    fn ar_2_indicate_release(&mut self) -> Result<(), Error> {
        self.invoked.push("ar2");
        Ok(())
    }
    fn ar_3_confirm_release(&mut self) -> Result<(), Error> {
        self.invoked.push("ar3");
        Ok(())
    }
    fn ar_4_send_release_rp(&mut self) -> Result<(), Error> {
        self.invoked.push("ar4");
        Ok(())
    }
    fn ar_5_stop_artim_timer(&mut self) -> Result<(), Error> {
        self.invoked.push("ar5");
        Ok(())
    }
    fn ar_6_indicate_pdata(&mut self) -> Result<(), Error> {
        self.invoked.push("ar6");
        Ok(())
    }
    fn ar_7_send_pdata(&mut self) -> Result<(), Error> {
        self.invoked.push("ar7");
        Ok(())
    }
    fn ar_8_indicate_association_release(&mut self) -> Result<(), Error> {
        self.invoked.push("ar8");
        Ok(())
    }
    fn ar_9_send_association_release_rp(&mut self) -> Result<(), Error> {
        self.invoked.push("ar9");
        Ok(())
    }
    fn ar_10_confirm_release(&mut self) -> Result<(), Error> {
        self.invoked.push("ar10");
        Ok(())
    }
}

#[test]
fn can_new_state_machine() {
    let state_machine = StateMachine::new(AssociationRole::Acceptor);
    assert_eq!(state_machine.state, State::State01);
}

#[test]
fn acceptance_path_reaches_established() {
    let mut sm = StateMachine::new(AssociationRole::Acceptor);
    let mut actions = RecordingActions::new();

    sm.process_event(Event::TransConnIndication, &mut actions).unwrap();
    assert_eq!(sm.get_state(), State::State02);

    let rq = AssociateRQContainer {
        protocol_version: 1,
        calling_ae_title: b"scu".to_vec(),
        called_ae_title: b"scp".to_vec(),
        application_context_name: Vec::new(),
        presentation_contexts: Vec::new(),
        user_variables: Vec::new(),
    };
    sm.process_event(Event::AAssociateRqPduRcv(rq), &mut actions).unwrap();
    assert_eq!(sm.get_state(), State::State03);

    let ac = AssociateACContainer {
        protocol_version: 1,
        application_context_name: Vec::new(),
        presentation_contexts: Vec::new(),
        user_variables: Vec::new(),
    };
    sm.process_event(Event::AAssociateResponseAccept(ac), &mut actions).unwrap();
    assert_eq!(sm.get_state(), State::State06);
    assert_eq!(actions.invoked, vec!["ae5", "ae6", "ae7"]);
}

#[test]
fn unlisted_event_is_rejected_and_state_kept() {
    let mut sm = StateMachine::new(AssociationRole::Acceptor);
    let mut actions = RecordingActions::new();

    let r = sm.process_event(Event::AReleaseResp, &mut actions);
    assert_eq!(r, Err(Error::InvalidEventForState(State::State01)));
    assert_eq!(sm.get_state(), State::State01);

    let r = sm.process_event(Event::ArtimTimerExpired, &mut actions);
    assert_eq!(r, Err(Error::InvalidEventForState(State::State01)));
    assert_eq!(sm.get_state(), State::State01);
    assert_eq!(actions.invoked.len(), 0);
}

#[test]
fn release_after_established_returns_to_idle() {
    let mut sm = StateMachine::new(AssociationRole::Acceptor);
    let mut actions = RecordingActions::new();

    sm.process_event(Event::TransConnIndication, &mut actions).unwrap();
    let rq = AssociateRQContainer {
        protocol_version: 1,
        calling_ae_title: Vec::new(),
        called_ae_title: Vec::new(),
        application_context_name: Vec::new(),
        presentation_contexts: Vec::new(),
        user_variables: Vec::new(),
    };
    sm.process_event(Event::AAssociateRqPduRcv(rq), &mut actions).unwrap();
    let ac = AssociateACContainer {
        protocol_version: 1,
        application_context_name: Vec::new(),
        presentation_contexts: Vec::new(),
        user_variables: Vec::new(),
    };
    sm.process_event(Event::AAssociateResponseAccept(ac), &mut actions).unwrap();
    assert_eq!(sm.get_state(), State::State06);

    sm.process_event(Event::AReleaseReq, &mut actions).unwrap();
    assert_eq!(sm.get_state(), State::State07);

    sm.process_event(Event::AReleaseRpPduRcv, &mut actions).unwrap();
    assert_eq!(sm.get_state(), State::State01);
    assert_eq!(actions.invoked, vec!["ae5", "ae6", "ae7", "ar1", "ar3"]);
}

#[test]
fn abort_pdu_in_established_surfaces_peer_abort() {
    let mut sm = StateMachine::new(AssociationRole::Acceptor);
    let mut actions = RecordingActions::new();

    sm.process_event(Event::TransConnIndication, &mut actions).unwrap();
    let rq = AssociateRQContainer {
        protocol_version: 1,
        calling_ae_title: Vec::new(),
        called_ae_title: Vec::new(),
        application_context_name: Vec::new(),
        presentation_contexts: Vec::new(),
        user_variables: Vec::new(),
    };
    sm.process_event(Event::AAssociateRqPduRcv(rq), &mut actions).unwrap();
    let ac = AssociateACContainer {
        protocol_version: 1,
        application_context_name: Vec::new(),
        presentation_contexts: Vec::new(),
        user_variables: Vec::new(),
    };
    sm.process_event(Event::AAssociateResponseAccept(ac), &mut actions).unwrap();

    let r = sm.process_event(Event::AAbortPduRcv, &mut actions);
    assert_eq!(r, Err(Error::PeerAbortedAssociation));
    assert_eq!(sm.get_state(), State::State01);
    assert_eq!(actions.invoked.last(), Some(&"aa3"));
}
