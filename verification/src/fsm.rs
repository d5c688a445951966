use vstd::prelude::*;
use crate::error::Error;
use crate::pdu::{
    AssociateACContainer, AssociateRJContainer, AssociateRQContainer, PDataContainer,
};

verus! {

/// The thirteen states of the upper layer state machine.
#[derive(Debug, PartialEq, Eq, Clone, Copy, Structural)]
pub enum State {
    /// Idle.
    State01,
    /// Transport connection open, awaiting A-ASSOCIATE-RQ PDU.
    State02,
    /// Awaiting local A-ASSOCIATE response primitive.
    State03,
    /// Awaiting transport connection opening to complete.
    State04,
    /// Awaiting A-ASSOCIATE-AC or A-ASSOCIATE-RJ PDU.
    State05,
    /// Association established and ready for data transfer.
    State06,
    /// Awaiting A-RELEASE-RP PDU.
    State07,
    /// Awaiting local A-RELEASE response primitive.
    State08,
    /// Release collision, requester side; awaiting A-RELEASE response.
    State09,
    /// Release collision, acceptor side; awaiting A-RELEASE-RP PDU.
    State10,
    /// Release collision, requester side; awaiting A-RELEASE-RP PDU.
    State11,
    /// Release collision, acceptor side; awaiting A-RELEASE response.
    State12,
    /// Awaiting transport connection close; the association no longer exists.
    State13,
}

/// The verdict on a received association request.
#[derive(Debug, PartialEq, Eq, Clone, Copy, Structural)]
pub enum AssociationExaminationResponse {
    Accept,
    Reject,
}

/// Which side of the association this state machine drives.
#[derive(Debug, PartialEq, Eq, Clone, Copy, Structural)]
pub enum AssociationRole {
    Requester,
    Acceptor,
}

/// The capability set the state machine drives. Each transition invokes at
/// most one of these; an error from the action is propagated by
/// `process_event` without reverting the state change already made.
pub trait Actions {
    fn ae_1_transport_connect(&mut self) -> Result<(), Error>;

    fn ae_2_send_association_rq_pdu(&mut self) -> Result<(), Error>;

    fn ae_3_association_confirmation_ac(&mut self) -> Result<(), Error>;

    fn ae_4_associate_confirmation_rj(&mut self) -> Result<(), Error>;

    fn ae_5_transport_connect_response(&mut self) -> Result<(), Error>;

    fn ae_6_examine_associate_rq(&mut self, association_rq: AssociateRQContainer) -> Result<
        AssociationExaminationResponse,
        Error,
    >;

    fn ae_7_send_association_ac(&mut self, association_ac: AssociateACContainer) -> Result<
        (),
        Error,
    >;

    fn ae_8_send_association_rj(&mut self, association_rj: AssociateRJContainer) -> Result<
        (),
        Error,
    >;

    fn dt_1_send_pdata(&mut self, pdata: PDataContainer) -> Result<(), Error>;

    fn dt_2_indicate_pdata(&mut self, pdata: PDataContainer) -> Result<(), Error>;

    fn aa_1_send_association_abort(&mut self) -> Result<(), Error>;

    fn aa_2_close_transport(&mut self) -> Result<(), Error>;

    fn aa_3_indicate_peer_aborted(&mut self) -> Result<(), Error>;

    fn aa_4_indicate_ap_abort(&mut self) -> Result<(), Error>;

    fn aa_5_stop_artim_timer(&mut self) -> Result<(), Error>;

    fn aa_6_ignore_pdu(&mut self) -> Result<(), Error>;

    fn aa_7_send_abort(&mut self) -> Result<(), Error>;

    fn aa_8_unrecognized_pdu_send_abort(&mut self) -> Result<(), Error>;

    fn ar_1_send_release_rq(&mut self) -> Result<(), Error>;

    fn ar_2_indicate_release(&mut self) -> Result<(), Error>;

    fn ar_3_confirm_release(&mut self) -> Result<(), Error>;

    fn ar_4_send_release_rp(&mut self) -> Result<(), Error>;

    fn ar_5_stop_artim_timer(&mut self) -> Result<(), Error>;

    fn ar_6_indicate_pdata(&mut self) -> Result<(), Error>;

    fn ar_7_send_pdata(&mut self) -> Result<(), Error>;

    fn ar_8_indicate_association_release(&mut self) -> Result<(), Error>;

    fn ar_9_send_association_release_rp(&mut self) -> Result<(), Error>;

    fn ar_10_confirm_release(&mut self) -> Result<(), Error>;
}

/// The events the state machine reacts to.
#[derive(Debug)]
pub enum Event {
    /// A-ASSOCIATE request primitive from the local user.
    AAssociateReqLocalUser,
    /// Transport connection confirmation from the local transport service.
    TransConnConfirmLocalUser,
    /// A-ASSOCIATE-AC PDU received on the transport connection.
    AAssociateAcPduRcv,
    /// A-ASSOCIATE-RJ PDU received on the transport connection.
    AAssociateRjPduRcv,
    /// Transport connection indication from the local transport service.
    TransConnIndication,
    /// A-ASSOCIATE-RQ PDU received on the transport connection.
    AAssociateRqPduRcv(AssociateRQContainer),
    /// A-ASSOCIATE response primitive: accept.
    AAssociateResponseAccept(AssociateACContainer),
    /// A-ASSOCIATE response primitive: reject.
    AAssociateResponseReject(AssociateRJContainer),
    /// P-DATA request primitive from the local user.
    PDataReq(PDataContainer),
    /// P-DATA-TF PDU received on the transport connection.
    PDataTfPduRcv(PDataContainer),
    /// A-RELEASE request primitive from the local user.
    AReleaseReq,
    /// A-RELEASE-RQ PDU received on the transport connection.
    AReleaseRQPduRcv,
    /// A-RELEASE-RP PDU received on the transport connection.
    AReleaseRpPduRcv,
    /// A-RELEASE response primitive from the local user.
    AReleaseResp,
    /// A-ABORT request primitive from the local user.
    AAbortReq,
    /// A-ABORT PDU received on the transport connection.
    AAbortPduRcv,
    /// Transport connection closed by the local transport service.
    TransConnClosed,
    /// The association request/release timer expired.
    ArtimTimerExpired,
    /// An unrecognized or invalid PDU was received.
    InvalidPdu,
}

/// The names of the twenty-six actions of the transition table.
#[derive(Debug, PartialEq, Eq, Clone, Copy, Structural)]
pub enum ActionId {
    Ae1,
    Ae2,
    Ae3,
    Ae4,
    Ae5,
    Ae6,
    Ae7,
    Ae8,
    Dt1,
    Dt2,
    Aa1,
    Aa2,
    Aa3,
    Aa4,
    Aa5,
    Aa6,
    Aa7,
    Aa8,
    Ar1,
    Ar2,
    Ar3,
    Ar4,
    Ar5,
    Ar6,
    Ar7,
    Ar8,
    Ar9,
    Ar10,
}

/// The action column of the transition table: which action a given event
/// invokes in a given state, or `None` where the table has no row and the
/// event is a programming error.
pub open spec fn table_action(s: State, e: Event) -> Option<ActionId> {
    match e {
        Event::AAssociateReqLocalUser => match s {
            State::State01 => Some(ActionId::Ae1),
            _ => None,
        },
        Event::TransConnConfirmLocalUser => match s {
            State::State04 => Some(ActionId::Ae2),
            _ => None,
        },
        Event::AAssociateAcPduRcv => match s {
            State::State02 => Some(ActionId::Aa1),
            State::State05 => Some(ActionId::Ae3),
            State::State13 => Some(ActionId::Aa6),
            State::State01 | State::State04 => None,
            _ => Some(ActionId::Aa8),
        },
        Event::AAssociateRjPduRcv => match s {
            State::State02 => Some(ActionId::Aa1),
            State::State05 => Some(ActionId::Ae4),
            State::State13 => Some(ActionId::Aa6),
            State::State01 | State::State04 => None,
            _ => Some(ActionId::Aa8),
        },
        Event::TransConnIndication => match s {
            State::State01 => Some(ActionId::Ae5),
            _ => None,
        },
        Event::AAssociateRqPduRcv(_) => match s {
            State::State02 => Some(ActionId::Ae6),
            State::State13 => Some(ActionId::Aa7),
            State::State01 | State::State04 => None,
            _ => Some(ActionId::Aa8),
        },
        Event::AAssociateResponseAccept(_) => match s {
            State::State03 => Some(ActionId::Ae7),
            _ => None,
        },
        Event::AAssociateResponseReject(_) => match s {
            State::State03 => Some(ActionId::Ae8),
            _ => None,
        },
        Event::PDataReq(_) => match s {
            State::State06 => Some(ActionId::Dt1),
            State::State08 => Some(ActionId::Ar7),
            _ => None,
        },
        Event::PDataTfPduRcv(_) => match s {
            State::State02 => Some(ActionId::Aa1),
            State::State06 => Some(ActionId::Dt2),
            State::State07 => Some(ActionId::Ar6),
            State::State13 => Some(ActionId::Aa6),
            State::State01 | State::State04 => None,
            _ => Some(ActionId::Aa8),
        },
        Event::AReleaseReq => match s {
            State::State06 => Some(ActionId::Ar1),
            _ => None,
        },
        Event::AReleaseRQPduRcv => match s {
            State::State02 => Some(ActionId::Aa1),
            State::State06 => Some(ActionId::Ar2),
            State::State07 => Some(ActionId::Ar8),
            State::State13 => Some(ActionId::Aa6),
            State::State01 | State::State04 => None,
            _ => Some(ActionId::Aa8),
        },
        Event::AReleaseRpPduRcv => match s {
            State::State02 => Some(ActionId::Aa1),
            State::State07 => Some(ActionId::Ar3),
            State::State10 => Some(ActionId::Ar10),
            State::State11 => Some(ActionId::Ar3),
            State::State13 => Some(ActionId::Aa6),
            State::State01 | State::State04 => None,
            _ => Some(ActionId::Aa8),
        },
        Event::AReleaseResp => match s {
            State::State08 | State::State12 => Some(ActionId::Ar4),
            State::State09 => Some(ActionId::Ar9),
            _ => None,
        },
        Event::AAbortReq => match s {
            State::State04 => Some(ActionId::Aa2),
            State::State01 | State::State02 | State::State13 => None,
            _ => Some(ActionId::Aa1),
        },
        Event::AAbortPduRcv => match s {
            State::State02 | State::State13 => Some(ActionId::Aa2),
            State::State01 | State::State04 => None,
            _ => Some(ActionId::Aa3),
        },
        Event::TransConnClosed => match s {
            State::State02 => Some(ActionId::Aa5),
            State::State13 => Some(ActionId::Ar5),
            State::State01 => None,
            _ => Some(ActionId::Aa4),
        },
        Event::ArtimTimerExpired => match s {
            State::State02 | State::State13 => Some(ActionId::Aa2),
            _ => None,
        },
        Event::InvalidPdu => match s {
            State::State02 => Some(ActionId::Aa1),
            State::State13 => Some(ActionId::Aa7),
            State::State01 | State::State04 => None,
            _ => Some(ActionId::Aa8),
        },
    }
}

/// Whether the table row for `(s, e)` is the one whose next state depends on
/// the outcome of examining the association request (AE-6).
pub open spec fn is_examination_row(s: State, e: Event) -> bool {
    s == State::State02 && e matches Event::AAssociateRqPduRcv(_)
}

/// The next-state column of the transition table, meaningful where
/// `table_action` has a row. For the examination row it gives the state
/// reached on acceptance; rejection leads to `State13` instead.
pub open spec fn table_next(s: State, e: Event, role: AssociationRole) -> State {
    match e {
        Event::AAssociateReqLocalUser => State::State04,
        Event::TransConnConfirmLocalUser => State::State05,
        Event::AAssociateAcPduRcv => match s {
            State::State05 => State::State06,
            State::State13 => State::State13,
            _ => State::State13,
        },
        Event::AAssociateRjPduRcv => match s {
            State::State05 => State::State01,
            _ => State::State13,
        },
        Event::TransConnIndication => State::State02,
        Event::AAssociateRqPduRcv(_) => match s {
            State::State02 => State::State03,
            _ => State::State13,
        },
        Event::AAssociateResponseAccept(_) => State::State06,
        Event::AAssociateResponseReject(_) => State::State13,
        Event::PDataReq(_) => s,
        Event::PDataTfPduRcv(_) => match s {
            State::State06 => State::State06,
            State::State07 => State::State07,
            _ => State::State13,
        },
        Event::AReleaseReq => State::State07,
        Event::AReleaseRQPduRcv => match s {
            State::State06 => State::State08,
            State::State07 => match role {
                AssociationRole::Requester => State::State09,
                AssociationRole::Acceptor => State::State10,
            },
            _ => State::State13,
        },
        Event::AReleaseRpPduRcv => match s {
            State::State07 => State::State01,
            State::State10 => State::State12,
            State::State11 => State::State01,
            _ => State::State13,
        },
        Event::AReleaseResp => match s {
            State::State09 => State::State11,
            _ => State::State13,
        },
        Event::AAbortReq => match s {
            State::State04 => State::State01,
            _ => State::State13,
        },
        Event::AAbortPduRcv => State::State01,
        Event::TransConnClosed => State::State01,
        Event::ArtimTimerExpired => State::State01,
        Event::InvalidPdu => State::State13,
    }
}

/// The upper layer state machine: the current state and the side it plays.
/// It is a pure transition engine; all effects go through an `Actions`
/// implementation handed to `process_event`.
#[derive(Debug, PartialEq, Eq, Clone, Copy, Structural)]
pub struct StateMachine {
    pub state: State,
    pub role: AssociationRole,
}

impl StateMachine {
    /// A fresh state machine in the idle state.
    pub fn new(role: AssociationRole) -> (r: StateMachine)
        ensures
            r.state == State::State01,
            r.role == role,
    {
        StateMachine { state: State::State01, role }
    }

    /// The current state.
    pub fn get_state(&self) -> (s: State)
        ensures
            s == self.state,
    {
        self.state
    }

    /// The transition table as a pure function: for this event in the
    /// current state, the action to invoke and the state to move to, or
    /// `InvalidEventForState` where the table has no row. For the
    /// examination row the returned state is the one reached on acceptance
    /// (`State03`); a rejection verdict leads to `State13` instead.
    pub fn transition(&self, event: &Event) -> (r: Result<(ActionId, State), Error>)
        ensures
            match table_action(self.state, *event) {
                Option::None => r == Err::<(ActionId, State), Error>(
                    Error::InvalidEventForState(self.state),
                ),
                Option::Some(a) => r == Ok::<(ActionId, State), Error>(
                    (a, table_next(self.state, *event, self.role)),
                ),
            },
    {
        match event {
            Event::AAssociateReqLocalUser => match self.state {
                State::State01 => Ok((ActionId::Ae1, State::State04)),
                s => Err(Error::InvalidEventForState(s)),
            },
            Event::TransConnConfirmLocalUser => match self.state {
                State::State04 => Ok((ActionId::Ae2, State::State05)),
                s => Err(Error::InvalidEventForState(s)),
            },
            Event::AAssociateAcPduRcv => match self.state {
                State::State02 => Ok((ActionId::Aa1, State::State13)),
                State::State05 => Ok((ActionId::Ae3, State::State06)),
                State::State13 => Ok((ActionId::Aa6, State::State13)),
                State::State01 | State::State04 => Err(Error::InvalidEventForState(self.state)),
                _ => Ok((ActionId::Aa8, State::State13)),
            },
            Event::AAssociateRjPduRcv => match self.state {
                State::State02 => Ok((ActionId::Aa1, State::State13)),
                State::State05 => Ok((ActionId::Ae4, State::State01)),
                State::State13 => Ok((ActionId::Aa6, State::State13)),
                State::State01 | State::State04 => Err(Error::InvalidEventForState(self.state)),
                _ => Ok((ActionId::Aa8, State::State13)),
            },
            Event::TransConnIndication => match self.state {
                State::State01 => Ok((ActionId::Ae5, State::State02)),
                s => Err(Error::InvalidEventForState(s)),
            },
            Event::AAssociateRqPduRcv(_) => match self.state {
                State::State02 => Ok((ActionId::Ae6, State::State03)),
                State::State13 => Ok((ActionId::Aa7, State::State13)),
                State::State01 | State::State04 => Err(Error::InvalidEventForState(self.state)),
                _ => Ok((ActionId::Aa8, State::State13)),
            },
            Event::AAssociateResponseAccept(_) => match self.state {
                State::State03 => Ok((ActionId::Ae7, State::State06)),
                s => Err(Error::InvalidEventForState(s)),
            },
            Event::AAssociateResponseReject(_) => match self.state {
                State::State03 => Ok((ActionId::Ae8, State::State13)),
                s => Err(Error::InvalidEventForState(s)),
            },
            Event::PDataReq(_) => match self.state {
                State::State06 => Ok((ActionId::Dt1, State::State06)),
                State::State08 => Ok((ActionId::Ar7, State::State08)),
                s => Err(Error::InvalidEventForState(s)),
            },
            Event::PDataTfPduRcv(_) => match self.state {
                State::State02 => Ok((ActionId::Aa1, State::State13)),
                State::State06 => Ok((ActionId::Dt2, State::State06)),
                State::State07 => Ok((ActionId::Ar6, State::State07)),
                State::State13 => Ok((ActionId::Aa6, State::State13)),
                State::State01 | State::State04 => Err(Error::InvalidEventForState(self.state)),
                _ => Ok((ActionId::Aa8, State::State13)),
            },
            Event::AReleaseReq => match self.state {
                State::State06 => Ok((ActionId::Ar1, State::State07)),
                s => Err(Error::InvalidEventForState(s)),
            },
            Event::AReleaseRQPduRcv => match self.state {
                State::State02 => Ok((ActionId::Aa1, State::State13)),
                State::State06 => Ok((ActionId::Ar2, State::State08)),
                State::State07 => match self.role {
                    AssociationRole::Requester => Ok((ActionId::Ar8, State::State09)),
                    AssociationRole::Acceptor => Ok((ActionId::Ar8, State::State10)),
                },
                State::State13 => Ok((ActionId::Aa6, State::State13)),
                State::State01 | State::State04 => Err(Error::InvalidEventForState(self.state)),
                _ => Ok((ActionId::Aa8, State::State13)),
            },
            Event::AReleaseRpPduRcv => match self.state {
                State::State02 => Ok((ActionId::Aa1, State::State13)),
                State::State07 => Ok((ActionId::Ar3, State::State01)),
                State::State10 => Ok((ActionId::Ar10, State::State12)),
                State::State11 => Ok((ActionId::Ar3, State::State01)),
                State::State13 => Ok((ActionId::Aa6, State::State13)),
                State::State01 | State::State04 => Err(Error::InvalidEventForState(self.state)),
                _ => Ok((ActionId::Aa8, State::State13)),
            },
            Event::AReleaseResp => match self.state {
                State::State08 | State::State12 => Ok((ActionId::Ar4, State::State13)),
                State::State09 => Ok((ActionId::Ar9, State::State11)),
                s => Err(Error::InvalidEventForState(s)),
            },
            Event::AAbortReq => match self.state {
                State::State04 => Ok((ActionId::Aa2, State::State01)),
                State::State01 | State::State02 | State::State13 => Err(
                    Error::InvalidEventForState(self.state),
                ),
                _ => Ok((ActionId::Aa1, State::State13)),
            },
            Event::AAbortPduRcv => match self.state {
                State::State02 | State::State13 => Ok((ActionId::Aa2, State::State01)),
                State::State01 | State::State04 => Err(Error::InvalidEventForState(self.state)),
                _ => Ok((ActionId::Aa3, State::State01)),
            },
            Event::TransConnClosed => match self.state {
                State::State02 => Ok((ActionId::Aa5, State::State01)),
                State::State13 => Ok((ActionId::Ar5, State::State01)),
                State::State01 => Err(Error::InvalidEventForState(self.state)),
                _ => Ok((ActionId::Aa4, State::State01)),
            },
            Event::ArtimTimerExpired => match self.state {
                State::State02 | State::State13 => Ok((ActionId::Aa2, State::State01)),
                s => Err(Error::InvalidEventForState(s)),
            },
            Event::InvalidPdu => match self.state {
                State::State02 => Ok((ActionId::Aa1, State::State13)),
                State::State13 => Ok((ActionId::Aa7, State::State13)),
                State::State01 | State::State04 => Err(Error::InvalidEventForState(self.state)),
                _ => Ok((ActionId::Aa8, State::State13)),
            },
        }
    }

    /// Feed one event. Where the transition table has no row for the current
    /// state, the state is left unchanged and `InvalidEventForState` comes
    /// back. Where it has one, the state changes exactly as the table says,
    /// whether or not the invoked action succeeds; an action error is
    /// propagated after the state change. The one exception is the
    /// examination row, whose next state is decided by the verdict the
    /// `Actions` implementation returns: `State03` on acceptance, `State13`
    /// on rejection, and no state change if the examination itself fails.
    pub fn process_event<T: Actions>(&mut self, event: Event, actions: &mut T) -> (r: Result<
        (),
        Error,
    >)
        ensures
            final(self).role == old(self).role,
            table_action(old(self).state, event) is None ==> {
                &&& final(self).state == old(self).state
                &&& r == Err::<(), Error>(Error::InvalidEventForState(old(self).state))
            },
            table_action(old(self).state, event) is Some && !is_examination_row(
                old(self).state,
                event,
            ) ==> final(self).state == table_next(old(self).state, event, old(self).role),
            is_examination_row(old(self).state, event) ==> {
                &&& r is Ok ==> (final(self).state == State::State03 || final(self).state
                    == State::State13)
                &&& r is Err ==> final(self).state == old(self).state
            },
    {
        let (action, next) = match self.transition(&event) {
            Ok(p) => p,
            Err(e) => {
                return Err(e);
            },
        };
        match (action, event) {
            (ActionId::Ae6, Event::AAssociateRqPduRcv(data)) => {
                match actions.ae_6_examine_associate_rq(data)? {
                    AssociationExaminationResponse::Accept => {
                        self.state = State::State03;
                    },
                    AssociationExaminationResponse::Reject => {
                        self.state = State::State13;
                    },
                }
                Ok(())
            },
            (other_action, other_event) => {
                self.state = next;
                match (other_action, other_event) {
                    (ActionId::Ae1, _) => actions.ae_1_transport_connect(),
                    (ActionId::Ae2, _) => actions.ae_2_send_association_rq_pdu(),
                    (ActionId::Ae3, _) => actions.ae_3_association_confirmation_ac(),
                    (ActionId::Ae4, _) => actions.ae_4_associate_confirmation_rj(),
                    (ActionId::Ae5, _) => actions.ae_5_transport_connect_response(),
                    (ActionId::Ae7, Event::AAssociateResponseAccept(ac)) => actions
                        .ae_7_send_association_ac(ac),
                    (ActionId::Ae8, Event::AAssociateResponseReject(rj)) => actions
                        .ae_8_send_association_rj(rj),
                    (ActionId::Dt1, Event::PDataReq(d)) => actions.dt_1_send_pdata(d),
                    (ActionId::Dt2, Event::PDataTfPduRcv(d)) => actions.dt_2_indicate_pdata(d),
                    (ActionId::Aa1, _) => actions.aa_1_send_association_abort(),
                    (ActionId::Aa2, _) => actions.aa_2_close_transport(),
                    (ActionId::Aa3, _) => actions.aa_3_indicate_peer_aborted(),
                    (ActionId::Aa4, _) => actions.aa_4_indicate_ap_abort(),
                    (ActionId::Aa5, _) => actions.aa_5_stop_artim_timer(),
                    (ActionId::Aa6, _) => actions.aa_6_ignore_pdu(),
                    (ActionId::Aa7, _) => actions.aa_7_send_abort(),
                    (ActionId::Aa8, _) => actions.aa_8_unrecognized_pdu_send_abort(),
                    (ActionId::Ar1, _) => actions.ar_1_send_release_rq(),
                    (ActionId::Ar2, _) => actions.ar_2_indicate_release(),
                    (ActionId::Ar3, _) => actions.ar_3_confirm_release(),
                    (ActionId::Ar4, _) => actions.ar_4_send_release_rp(),
                    (ActionId::Ar5, _) => actions.ar_5_stop_artim_timer(),
                    (ActionId::Ar6, _) => actions.ar_6_indicate_pdata(),
                    (ActionId::Ar7, _) => actions.ar_7_send_pdata(),
                    (ActionId::Ar8, _) => actions.ar_8_indicate_association_release(),
                    (ActionId::Ar9, _) => actions.ar_9_send_association_release_rp(),
                    (ActionId::Ar10, _) => actions.ar_10_confirm_release(),
                    (_, _) => {
                        proof {
                            assert(false);
                        }
                        Err(Error::NoAction)
                    },
                }
            },
        }
    }
}

} // verus!
