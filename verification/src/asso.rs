use vstd::prelude::*;
use crate::error::Error;
use crate::fsm::{
    table_action, table_next, ActionId, AssociationExaminationResponse, AssociationRole, Event,
    State, StateMachine,
};
use crate::pdu::{
    clone_bytes, AbortRQContainer, AbortRQServiceProviderReason, AbortRQSource,
    AssociateACContainer, AssociateRJContainer, AssociateRQContainer, PDataContainer,
    PresentationContextProposed, PresentationContextProposedView, PresentationContextResult,
    PresentationContextResultReason, PresentationContextResultView, UserVariableItem,
    UserVariableItemView, PDU,
};
use crate::reader::DEFAULT_MAX_PDU;

verus! {

broadcast use crate::pdu::lemma_bytes_deep_view;

/// An abstract syntax this side is willing to serve, the transfer syntaxes
/// it can use for it, and whether this side's preference order wins the
/// choice of transfer syntax.
#[derive(Debug)]
pub struct SupportedContext {
    pub abstract_syntax: Vec<u8>,
    pub transfer_syntaxes: Vec<Vec<u8>>,
    pub scp_priority: bool,
}

/// Mathematical model of a supported context.
#[verifier::ext_equal]
pub ghost struct SupportedContextView {
    pub abstract_syntax: Seq<u8>,
    pub transfer_syntaxes: Seq<Seq<u8>>,
    pub scp_priority: bool,
}

impl View for SupportedContext {
    type V = SupportedContextView;

    open spec fn view(&self) -> SupportedContextView {
        SupportedContextView {
            abstract_syntax: self.abstract_syntax@,
            transfer_syntaxes: self.transfer_syntaxes.deep_view(),
            scp_priority: self.scp_priority,
        }
    }
}

impl DeepView for SupportedContext {
    type V = SupportedContextView;

    open spec fn deep_view(&self) -> SupportedContextView {
        self.view()
    }
}

/// A presentation context the association accepted: the proposing side's
/// identifier, the abstract syntax, and the transfer syntax that won.
#[derive(Debug)]
pub struct AcceptedContext {
    pub id: u8,
    pub abstract_syntax: Vec<u8>,
    pub transfer_syntax: Vec<u8>,
}

/// Mathematical model of an accepted context.
#[verifier::ext_equal]
pub ghost struct AcceptedContextView {
    pub id: u8,
    pub abstract_syntax: Seq<u8>,
    pub transfer_syntax: Seq<u8>,
}

impl View for AcceptedContext {
    type V = AcceptedContextView;

    open spec fn view(&self) -> AcceptedContextView {
        AcceptedContextView {
            id: self.id,
            abstract_syntax: self.abstract_syntax@,
            transfer_syntax: self.transfer_syntax@,
        }
    }
}

impl DeepView for AcceptedContext {
    type V = AcceptedContextView;

    open spec fn deep_view(&self) -> AcceptedContextView {
        self.view()
    }
}

impl Clone for AcceptedContext {
    /// An exact copy, field by field.
    fn clone(&self) -> (r: Self)
        ensures
            r@ == self@,
    {
        AcceptedContext {
            id: self.id,
            abstract_syntax: clone_bytes(&self.abstract_syntax),
            transfer_syntax: clone_bytes(&self.transfer_syntax),
        }
    }
}

/// What an association acceptor is configured with: the largest PDU it is
/// willing to receive and the contexts it supports.
#[derive(Debug)]
pub struct AssociationOptions {
    pub max_pdu_size: u32,
    pub supported_contexts: Vec<SupportedContext>,
}

impl Default for AssociationOptions {
    /// The default maximum PDU size and no supported contexts.
    fn default() -> (r: AssociationOptions)
        ensures
            r.max_pdu_size == DEFAULT_MAX_PDU,
            r.supported_contexts@.len() == 0,
    {
        AssociationOptions { max_pdu_size: DEFAULT_MAX_PDU, supported_contexts: Vec::new() }
    }
}

impl AssociationOptions {
    /// Register one supported context.
    pub fn add_supported_context(
        &mut self,
        abstract_syntax: Vec<u8>,
        transfer_syntaxes: Vec<Vec<u8>>,
        scp_priority: bool,
    ) -> (r: Result<(), Error>)
        ensures
            r is Ok,
            final(self).max_pdu_size == old(self).max_pdu_size,
            final(self).supported_contexts.deep_view() == old(self).supported_contexts.deep_view().push(
                SupportedContextView {
                    abstract_syntax: abstract_syntax@,
                    transfer_syntaxes: transfer_syntaxes.deep_view(),
                    scp_priority: scp_priority,
                },
            ),
    {
        self.supported_contexts.push(
            SupportedContext { abstract_syntax, transfer_syntaxes, scp_priority },
        );
        proof {
            assert(self.supported_contexts.deep_view() =~= old(
                self,
            ).supported_contexts.deep_view().push(
                SupportedContextView {
                    abstract_syntax: abstract_syntax@,
                    transfer_syntaxes: transfer_syntaxes.deep_view(),
                    scp_priority: scp_priority,
                },
            ));
        }
        Ok(())
    }
}

/// Whether the list `l` holds the byte string `t`.
pub open spec fn ts_list_contains(l: Seq<Seq<u8>>, t: Seq<u8>) -> bool {
    exists|i: int| 0 <= i < l.len() && l[i] == t
}

/// The first supported context whose abstract syntax is `a`, scanning from
/// position `i`.
pub open spec fn find_supported_from(
    l: Seq<SupportedContextView>,
    a: Seq<u8>,
    i: int,
) -> Option<SupportedContextView>
    decreases l.len() - i,
{
    if i < 0 || i >= l.len() {
        None
    } else if l[i].abstract_syntax == a {
        Some(l[i])
    } else {
        find_supported_from(l, a, i + 1)
    }
}

/// The first supported context whose abstract syntax is `a`.
pub open spec fn find_supported(l: Seq<SupportedContextView>, a: Seq<u8>) -> Option<
    SupportedContextView,
> {
    find_supported_from(l, a, 0)
}

/// The first element of `outer`, scanning from position `i`, that also
/// appears in `inner`.
pub open spec fn first_common_from(outer: Seq<Seq<u8>>, inner: Seq<Seq<u8>>, i: int) -> Option<
    Seq<u8>,
>
    decreases outer.len() - i,
{
    if i < 0 || i >= outer.len() {
        None
    } else if ts_list_contains(inner, outer[i]) {
        Some(outer[i])
    } else {
        first_common_from(outer, inner, i + 1)
    }
}

/// The first element of `outer` that also appears in `inner`: the transfer
/// syntax the negotiation chooses, the priority list being the outer one.
pub open spec fn first_common(outer: Seq<Seq<u8>>, inner: Seq<Seq<u8>>) -> Option<Seq<u8>> {
    first_common_from(outer, inner, 0)
}

/// The transfer syntax list that has priority for a supported entry: the
/// acceptor's own list when `scp_priority` is set, the proposer's otherwise.
pub open spec fn priority_outer(
    sc: SupportedContextView,
    proposed: PresentationContextProposedView,
) -> Seq<Seq<u8>> {
    if sc.scp_priority {
        sc.transfer_syntaxes
    } else {
        proposed.transfer_syntaxes
    }
}

/// The other side's list for a supported entry.
pub open spec fn priority_inner(
    sc: SupportedContextView,
    proposed: PresentationContextProposedView,
) -> Seq<Seq<u8>> {
    if sc.scp_priority {
        proposed.transfer_syntaxes
    } else {
        sc.transfer_syntaxes
    }
}

/// The negotiated outcome for one proposed context against the supported
/// set: the result's reason and transfer syntax, as a pair.
pub open spec fn negotiation_outcome(
    proposed: PresentationContextProposedView,
    supported: Seq<SupportedContextView>,
) -> (PresentationContextResultReason, Seq<u8>) {
    match find_supported(supported, proposed.abstract_syntax) {
        Option::None => (
            PresentationContextResultReason::AbstractSyntaxNotSupported,
            Seq::<u8>::empty(),
        ),
        Option::Some(sc) => match first_common(
            priority_outer(sc, proposed),
            priority_inner(sc, proposed),
        ) {
            Option::Some(t) => (PresentationContextResultReason::Acceptance, t),
            Option::None => (
                PresentationContextResultReason::TransferSyntaxesNotSupported,
                Seq::<u8>::empty(),
            ),
        },
    }
}

/// Whether two byte strings hold the same bytes.
pub fn bytes_eq(a: &Vec<u8>, b: &Vec<u8>) -> (r: bool)
    ensures
        r == (a@ == b@),
{
    if a.len() != b.len() {
        return false;
    }
    let mut i: usize = 0;
    while i < a.len()
        invariant
            i <= a.len(),
            a@.len() == b@.len(),
            forall|j: int| 0 <= j < i ==> a@[j] == b@[j],
        decreases a.len() - i,
    {
        if a[i] != b[i] {
            return false;
        }
        i += 1;
    }
    proof {
        assert(a@ =~= b@);
    }
    true
}

impl PresentationContextProposed {
    /// Decide this proposed context against the supported set.
    ///
    /// The first supported entry with the same abstract syntax is consulted;
    /// if none exists the context is turned down with
    /// `AbstractSyntaxNotSupported`. Otherwise the priority list (the
    /// acceptor's under `scp_priority`, the proposer's otherwise) is scanned
    /// in order, and the first of its transfer syntaxes that the other list
    /// also holds is accepted. If the lists share none, the context is
    /// turned down with `TransferSyntaxesNotSupported`. A turned-down
    /// context carries an empty transfer syntax.
    #[verifier::loop_isolation(false)]
    pub fn accept(&self, supported_contexts: &[SupportedContext]) -> (r:
        PresentationContextResult)
        ensures
            r.id == self.id,
            r@.reason == negotiation_outcome(self@, supported_contexts.deep_view()).0,
            r@.transfer_syntax == negotiation_outcome(self@, supported_contexts.deep_view()).1,
    {
        let ghost supported_seq = supported_contexts.deep_view();
        let mut k: usize = 0;
        while k < supported_contexts.len()
            invariant
                k <= supported_contexts.len(),
                supported_seq == supported_contexts.deep_view(),
                find_supported(supported_seq, self.abstract_syntax@) == find_supported_from(
                    supported_seq,
                    self.abstract_syntax@,
                    k as int,
                ),
            decreases supported_contexts.len() - k,
        {
            let supported_context = &supported_contexts[k];
            if bytes_eq(&supported_context.abstract_syntax, &self.abstract_syntax) {
                proof {
                    assert(find_supported(supported_seq, self.abstract_syntax@) == Some(
                        supported_seq[k as int],
                    ));
                }
                let ghost sc = supported_seq[k as int];
                let (outer, inner): (&Vec<Vec<u8>>, &Vec<Vec<u8>>) = if supported_context
                    .scp_priority {
                    (&supported_context.transfer_syntaxes, &self.transfer_syntaxes)
                } else {
                    (&self.transfer_syntaxes, &supported_context.transfer_syntaxes)
                };
                proof {
                    assert(outer.deep_view() == priority_outer(sc, self@));
                    assert(inner.deep_view() == priority_inner(sc, self@));
                }
                let mut oi: usize = 0;
                while oi < outer.len()
                    invariant
                        oi <= outer.len(),
                        first_common(outer.deep_view(), inner.deep_view()) == first_common_from(
                            outer.deep_view(),
                            inner.deep_view(),
                            oi as int,
                        ),
                    decreases outer.len() - oi,
                {
                    let mut ii: usize = 0;
                    while ii < inner.len()
                        invariant
                            oi < outer.len(),
                            ii <= inner.len(),
                            forall|j: int| 0 <= j < ii ==> inner.deep_view()[j] != outer.deep_view()[oi as int],
                        decreases inner.len() - ii,
                    {
                        if bytes_eq(&inner[ii], &outer[oi]) {
                            proof {
                                crate::pdu::lemma_bytes_deep_view(inner@[ii as int]);
                                crate::pdu::lemma_bytes_deep_view(outer@[oi as int]);
                                assert(inner.deep_view()[ii as int] == outer.deep_view()[oi as int]);
                                assert(ts_list_contains(
                                    inner.deep_view(),
                                    outer.deep_view()[oi as int],
                                ));
                            }
                            return PresentationContextResult {
                                id: self.id,
                                reason: PresentationContextResultReason::Acceptance,
                                transfer_syntax: clone_bytes(&inner[ii]),
                            };
                        }
                        ii += 1;
                    }
                    proof {
                        assert(!ts_list_contains(inner.deep_view(), outer.deep_view()[oi as int]));
                    }
                    oi += 1;
                }
                return PresentationContextResult {
                    id: self.id,
                    reason: PresentationContextResultReason::TransferSyntaxesNotSupported,
                    transfer_syntax: Vec::new(),
                };
            }
            k += 1;
        }
        PresentationContextResult {
            id: self.id,
            reason: PresentationContextResultReason::AbstractSyntaxNotSupported,
            transfer_syntax: Vec::new(),
        }
    }
}

/// The outcome the transport layer reports for one attempted PDU read:
/// a complete PDU, a clean end of stream, or a read timeout.
#[derive(Debug)]
pub enum ReadOutcome {
    Pdu(PDU),
    Eof,
    TimedOut,
}

/// An association being accepted: the state machine, what was negotiated,
/// the PDUs queued for sending, and the request to close the transport.
/// The transport itself lives outside; whoever owns it feeds PDUs in as
/// `ReadOutcome`s and writes out what `take_outgoing` hands back.
#[derive(Debug)]
pub struct Association {
    pub state_machine: StateMachine,
    pub association_rq: Option<AssociateRQContainer>,
    pub accepted_contexts: Vec<AcceptedContext>,
    pub current_pdata: Option<PDataContainer>,
    pub options: AssociationOptions,
    pub outgoing: Vec<PDU>,
    pub wants_shutdown: bool,
}

/// Everything but the outgoing queue is the same in `post` as in `pre`.
pub open spec fn only_outgoing_changed(pre: Association, post: Association) -> bool {
    &&& post.state_machine == pre.state_machine
    &&& post.association_rq == pre.association_rq
    &&& post.accepted_contexts == pre.accepted_contexts
    &&& post.current_pdata == pre.current_pdata
    &&& post.options == pre.options
    &&& post.wants_shutdown == pre.wants_shutdown
}

/// Everything but the pending P-DATA container is the same.
pub open spec fn only_pdata_changed(pre: Association, post: Association) -> bool {
    &&& post.state_machine == pre.state_machine
    &&& post.association_rq == pre.association_rq
    &&& post.accepted_contexts == pre.accepted_contexts
    &&& post.outgoing == pre.outgoing
    &&& post.options == pre.options
    &&& post.wants_shutdown == pre.wants_shutdown
}

/// Everything but the shutdown request is the same.
pub open spec fn only_shutdown_changed(pre: Association, post: Association) -> bool {
    &&& post.state_machine == pre.state_machine
    &&& post.association_rq == pre.association_rq
    &&& post.accepted_contexts == pre.accepted_contexts
    &&& post.current_pdata == pre.current_pdata
    &&& post.outgoing == pre.outgoing
    &&& post.options == pre.options
}

/// Everything but the stored association request is the same.
pub open spec fn only_rq_changed(pre: Association, post: Association) -> bool {
    &&& post.state_machine == pre.state_machine
    &&& post.accepted_contexts == pre.accepted_contexts
    &&& post.current_pdata == pre.current_pdata
    &&& post.outgoing == pre.outgoing
    &&& post.options == pre.options
    &&& post.wants_shutdown == pre.wants_shutdown
}

/// The PDU this association's implementation of an action queues for
/// sending, if any.
pub open spec fn action_output(a: ActionId, e: Event) -> Option<PDU> {
    match a {
        ActionId::Aa1 => Some(
            PDU::AbortRQ(AbortRQContainer { source: AbortRQSource::ServiceUser }),
        ),
        ActionId::Aa7 => Some(
            PDU::AbortRQ(
                AbortRQContainer {
                    source: AbortRQSource::ServiceProvider(
                        AbortRQServiceProviderReason::ReasonNotSpecifiedUnrecognizedPDU,
                    ),
                },
            ),
        ),
        ActionId::Aa8 => Some(
            PDU::AbortRQ(
                AbortRQContainer {
                    source: AbortRQSource::ServiceProvider(
                        AbortRQServiceProviderReason::UnexpectedPDU,
                    ),
                },
            ),
        ),
        ActionId::Ar1 => Some(PDU::ReleaseRQ),
        ActionId::Ar4 => Some(PDU::ReleaseRP),
        ActionId::Ar9 => Some(PDU::ReleaseRP),
        ActionId::Ae7 => match e {
            Event::AAssociateResponseAccept(ac) => Some(PDU::AssociationAC(ac)),
            _ => None,
        },
        ActionId::Ae8 => match e {
            Event::AAssociateResponseReject(rj) => Some(PDU::AssociationRJ(rj)),
            _ => None,
        },
        ActionId::Dt1 => match e {
            Event::PDataReq(d) => Some(PDU::PData(d)),
            _ => None,
        },
        _ => None,
    }
}

/// Whether this association's implementation of an action succeeds.
/// The requester-side actions are not provided by this acceptor, and the
/// two abort indications surface the peer abort as an error.
pub open spec fn action_succeeds(a: ActionId) -> bool {
    match a {
        ActionId::Ae1 | ActionId::Ae2 | ActionId::Ae3 | ActionId::Ae4 | ActionId::Ar7 => false,
        ActionId::Aa3 | ActionId::Aa4 => false,
        _ => true,
    }
}

/// The error an unsuccessful action reports.
pub open spec fn action_error(a: ActionId) -> Error {
    match a {
        ActionId::Aa3 | ActionId::Aa4 => Error::PeerAbortedAssociation,
        _ => Error::NoAction,
    }
}

/// Whether this association's implementation of an action asks for the
/// transport to be shut down.
pub open spec fn action_shuts_down(a: ActionId) -> bool {
    match a {
        ActionId::Aa2 | ActionId::Aa3 | ActionId::Aa4 => true,
        _ => false,
    }
}

impl Association {
    /// AE-5: acknowledge the transport connection; nothing to do here.
    fn ae_5_transport_connect_response(&mut self) -> (r: Result<(), Error>)
        ensures
            r is Ok,
            *final(self) == *old(self),
    {
        Ok(())
    }

    /// AE-6: examine the association request. This acceptor stores the
    /// request and accepts; the negotiation that may still turn individual
    /// contexts down happens afterwards.
    fn ae_6_examine_associate_rq(&mut self, association_rq: AssociateRQContainer) -> (r: Result<
        AssociationExaminationResponse,
        Error,
    >)
        ensures
            r == Ok::<_, Error>(AssociationExaminationResponse::Accept),
            only_rq_changed(*old(self), *final(self)),
            final(self).association_rq == Some(association_rq),
    {
        self.association_rq = Some(association_rq);
        Ok(AssociationExaminationResponse::Accept)
    }

    /// AE-7: queue the A-ASSOCIATE-AC PDU.
    fn ae_7_send_association_ac(&mut self, association_ac: AssociateACContainer) -> (r: Result<
        (),
        Error,
    >)
        ensures
            r is Ok,
            only_outgoing_changed(*old(self), *final(self)),
            final(self).outgoing@ == old(self).outgoing@.push(PDU::AssociationAC(association_ac)),
    {
        self.outgoing.push(PDU::AssociationAC(association_ac));
        Ok(())
    }

    /// AE-8: queue the A-ASSOCIATE-RJ PDU.
    fn ae_8_send_association_rj(&mut self, association_rj: AssociateRJContainer) -> (r: Result<
        (),
        Error,
    >)
        ensures
            r is Ok,
            only_outgoing_changed(*old(self), *final(self)),
            final(self).outgoing@ == old(self).outgoing@.push(PDU::AssociationRJ(association_rj)),
    {
        self.outgoing.push(PDU::AssociationRJ(association_rj));
        Ok(())
    }

    /// DT-1: queue the P-DATA-TF PDU.
    fn dt_1_send_pdata(&mut self, pdata: PDataContainer) -> (r: Result<(), Error>)
        ensures
            r is Ok,
            only_outgoing_changed(*old(self), *final(self)),
            final(self).outgoing@ == old(self).outgoing@.push(PDU::PData(pdata)),
    {
        self.outgoing.push(PDU::PData(pdata));
        Ok(())
    }

    /// DT-2: keep the received P-DATA container for the reassembler.
    fn dt_2_indicate_pdata(&mut self, pdata: PDataContainer) -> (r: Result<(), Error>)
        ensures
            r is Ok,
            only_pdata_changed(*old(self), *final(self)),
            final(self).current_pdata == Some(pdata),
    {
        self.current_pdata = Some(pdata);
        Ok(())
    }

    /// AA-1: queue an A-ABORT PDU on behalf of the service user.
    fn aa_1_send_association_abort(&mut self) -> (r: Result<(), Error>)
        ensures
            r is Ok,
            only_outgoing_changed(*old(self), *final(self)),
            final(self).outgoing@ == old(self).outgoing@.push(
                PDU::AbortRQ(AbortRQContainer { source: AbortRQSource::ServiceUser }),
            ),
    {
        self.outgoing.push(PDU::AbortRQ(AbortRQContainer { source: AbortRQSource::ServiceUser }));
        Ok(())
    }

    /// AA-2: ask for the transport connection to be closed.
    fn aa_2_close_transport(&mut self) -> (r: Result<(), Error>)
        ensures
            r is Ok,
            only_shutdown_changed(*old(self), *final(self)),
            final(self).wants_shutdown,
    {
        self.wants_shutdown = true;
        Ok(())
    }

    /// AA-3: the peer aborted; ask for the transport to be closed and
    /// surface the abort.
    fn aa_3_indicate_peer_aborted(&mut self) -> (r: Result<(), Error>)
        ensures
            r == Err::<(), Error>(Error::PeerAbortedAssociation),
            only_shutdown_changed(*old(self), *final(self)),
            final(self).wants_shutdown,
    {
        self.wants_shutdown = true;
        Err(Error::PeerAbortedAssociation)
    }

    /// AA-4: the transport closed under us; treat it as a provider abort.
    fn aa_4_indicate_ap_abort(&mut self) -> (r: Result<(), Error>)
        ensures
            r == Err::<(), Error>(Error::PeerAbortedAssociation),
            only_shutdown_changed(*old(self), *final(self)),
            final(self).wants_shutdown,
    {
        self.wants_shutdown = true;
        Err(Error::PeerAbortedAssociation)
    }

    /// AA-5: stop the timer; this layer does not schedule it.
    fn aa_5_stop_artim_timer(&mut self) -> (r: Result<(), Error>)
        ensures
            r is Ok,
            *final(self) == *old(self),
    {
        Ok(())
    }

    /// AA-6: ignore the PDU.
    fn aa_6_ignore_pdu(&mut self) -> (r: Result<(), Error>)
        ensures
            r is Ok,
            *final(self) == *old(self),
    {
        Ok(())
    }

    /// AA-7: queue an A-ABORT PDU for an unrecognized PDU.
    fn aa_7_send_abort(&mut self) -> (r: Result<(), Error>)
        ensures
            r is Ok,
            only_outgoing_changed(*old(self), *final(self)),
            final(self).outgoing@ == old(self).outgoing@.push(
                PDU::AbortRQ(
                    AbortRQContainer {
                        source: AbortRQSource::ServiceProvider(
                            AbortRQServiceProviderReason::ReasonNotSpecifiedUnrecognizedPDU,
                        ),
                    },
                ),
            ),
    {
        self.outgoing.push(
            PDU::AbortRQ(
                AbortRQContainer {
                    source: AbortRQSource::ServiceProvider(
                        AbortRQServiceProviderReason::ReasonNotSpecifiedUnrecognizedPDU,
                    ),
                },
            ),
        );
        Ok(())
    }

    /// AA-8: queue an A-ABORT PDU for a PDU the current state cannot take.
    fn aa_8_unrecognized_pdu_send_abort(&mut self) -> (r: Result<(), Error>)
        ensures
            r is Ok,
            only_outgoing_changed(*old(self), *final(self)),
            final(self).outgoing@ == old(self).outgoing@.push(
                PDU::AbortRQ(
                    AbortRQContainer {
                        source: AbortRQSource::ServiceProvider(
                            AbortRQServiceProviderReason::UnexpectedPDU,
                        ),
                    },
                ),
            ),
    {
        self.outgoing.push(
            PDU::AbortRQ(
                AbortRQContainer {
                    source: AbortRQSource::ServiceProvider(
                        AbortRQServiceProviderReason::UnexpectedPDU,
                    ),
                },
            ),
        );
        Ok(())
    }

    /// AR-1: queue the A-RELEASE-RQ PDU.
    fn ar_1_send_release_rq(&mut self) -> (r: Result<(), Error>)
        ensures
            r is Ok,
            only_outgoing_changed(*old(self), *final(self)),
            final(self).outgoing@ == old(self).outgoing@.push(PDU::ReleaseRQ),
    {
        self.outgoing.push(PDU::ReleaseRQ);
        Ok(())
    }

    /// AR-2: the peer asked for release; the state alone carries this.
    fn ar_2_indicate_release(&mut self) -> (r: Result<(), Error>)
        ensures
            r is Ok,
            *final(self) == *old(self),
    {
        Ok(())
    }

    /// AR-3: the release completed; the state alone carries this.
    fn ar_3_confirm_release(&mut self) -> (r: Result<(), Error>)
        ensures
            r is Ok,
            *final(self) == *old(self),
    {
        Ok(())
    }

    /// AR-4: queue the A-RELEASE-RP PDU.
    fn ar_4_send_release_rp(&mut self) -> (r: Result<(), Error>)
        ensures
            r is Ok,
            only_outgoing_changed(*old(self), *final(self)),
            final(self).outgoing@ == old(self).outgoing@.push(PDU::ReleaseRP),
    {
        self.outgoing.push(PDU::ReleaseRP);
        Ok(())
    }

    /// AR-5: stop the timer; this layer does not schedule it.
    fn ar_5_stop_artim_timer(&mut self) -> (r: Result<(), Error>)
        ensures
            r is Ok,
            *final(self) == *old(self),
    {
        Ok(())
    }

    /// AR-6: a P-DATA PDU while awaiting release; nothing is kept.
    fn ar_6_indicate_pdata(&mut self) -> (r: Result<(), Error>)
        ensures
            r is Ok,
            *final(self) == *old(self),
    {
        Ok(())
    }

    /// AR-8: a release collision was detected; the state alone carries this.
    fn ar_8_indicate_association_release(&mut self) -> (r: Result<(), Error>)
        ensures
            r is Ok,
            *final(self) == *old(self),
    {
        Ok(())
    }

    /// AR-9: queue the A-RELEASE-RP PDU after a collision.
    fn ar_9_send_association_release_rp(&mut self) -> (r: Result<(), Error>)
        ensures
            r is Ok,
            only_outgoing_changed(*old(self), *final(self)),
            final(self).outgoing@ == old(self).outgoing@.push(PDU::ReleaseRP),
    {
        self.outgoing.push(PDU::ReleaseRP);
        Ok(())
    }

    /// AR-10: a collision release completed; the state alone carries this.
    fn ar_10_confirm_release(&mut self) -> (r: Result<(), Error>)
        ensures
            r is Ok,
            *final(self) == *old(self),
    {
        Ok(())
    }

    /// An action this acceptor-side association does not provide.
    fn no_action(&mut self) -> (r: Result<(), Error>)
        ensures
            r == Err::<(), Error>(Error::NoAction),
            *final(self) == *old(self),
    {
        Err(Error::NoAction)
    }

    /// Feed one event: look the transition up, move to the next state, and
    /// run this association's implementation of the action. The effect on
    /// the queue, the stored containers and the shutdown request is exactly
    /// what `action_output`, `action_shuts_down` and the companions say.
    fn process_event(&mut self, event: Event) -> (r: Result<(), Error>)
        ensures
            final(self).state_machine.role == old(self).state_machine.role,
            final(self).options == old(self).options,
            final(self).accepted_contexts == old(self).accepted_contexts,
            table_action(old(self).state_machine.state, event) is None ==> {
                &&& *final(self) == *old(self)
                &&& r == Err::<(), Error>(
                    Error::InvalidEventForState(old(self).state_machine.state),
                )
            },
            table_action(old(self).state_machine.state, event) matches Some(a) ==> {
                &&& final(self).state_machine.state == (if a == ActionId::Ae6 {
                    State::State03
                } else {
                    table_next(
                        old(self).state_machine.state,
                        event,
                        old(self).state_machine.role,
                    )
                })
                &&& action_succeeds(a) ==> r is Ok
                &&& !action_succeeds(a) ==> r == Err::<(), Error>(action_error(a))
                &&& match action_output(a, event) {
                    Some(p) => final(self).outgoing@ == old(self).outgoing@.push(p),
                    None => final(self).outgoing == old(self).outgoing,
                }
                &&& final(self).wants_shutdown == (old(self).wants_shutdown || action_shuts_down(
                    a,
                ))
                &&& final(self).current_pdata == (if a == ActionId::Dt2 {
                    match event {
                        Event::PDataTfPduRcv(d) => Some(d),
                        _ => old(self).current_pdata,
                    }
                } else {
                    old(self).current_pdata
                })
                &&& final(self).association_rq == (if a == ActionId::Ae6 {
                    match event {
                        Event::AAssociateRqPduRcv(d) => Some(d),
                        _ => old(self).association_rq,
                    }
                } else {
                    old(self).association_rq
                })
            },
    {
        let (action, next) = match self.state_machine.transition(&event) {
            Ok(p) => p,
            Err(e) => {
                return Err(e);
            },
        };
        match (action, event) {
            (ActionId::Ae6, Event::AAssociateRqPduRcv(data)) => {
                match self.ae_6_examine_associate_rq(data)? {
                    AssociationExaminationResponse::Accept => {
                        self.state_machine.state = State::State03;
                    },
                    AssociationExaminationResponse::Reject => {
                        self.state_machine.state = State::State13;
                    },
                }
                Ok(())
            },
            (other_action, other_event) => {
                self.state_machine.state = next;
                match (other_action, other_event) {
                (ActionId::Ae1, _) => self.no_action(),
                (ActionId::Ae2, _) => self.no_action(),
                (ActionId::Ae3, _) => self.no_action(),
                (ActionId::Ae4, _) => self.no_action(),
                (ActionId::Ae5, _) => self.ae_5_transport_connect_response(),
                (ActionId::Ae7, Event::AAssociateResponseAccept(ac)) => self
                    .ae_7_send_association_ac(ac),
                (ActionId::Ae8, Event::AAssociateResponseReject(rj)) => self
                    .ae_8_send_association_rj(rj),
                (ActionId::Dt1, Event::PDataReq(d)) => self.dt_1_send_pdata(d),
                (ActionId::Dt2, Event::PDataTfPduRcv(d)) => self.dt_2_indicate_pdata(d),
                (ActionId::Aa1, _) => self.aa_1_send_association_abort(),
                (ActionId::Aa2, _) => self.aa_2_close_transport(),
                (ActionId::Aa3, _) => self.aa_3_indicate_peer_aborted(),
                (ActionId::Aa4, _) => self.aa_4_indicate_ap_abort(),
                (ActionId::Aa5, _) => self.aa_5_stop_artim_timer(),
                (ActionId::Aa6, _) => self.aa_6_ignore_pdu(),
                (ActionId::Aa7, _) => self.aa_7_send_abort(),
                (ActionId::Aa8, _) => self.aa_8_unrecognized_pdu_send_abort(),
                (ActionId::Ar1, _) => self.ar_1_send_release_rq(),
                (ActionId::Ar2, _) => self.ar_2_indicate_release(),
                (ActionId::Ar3, _) => self.ar_3_confirm_release(),
                (ActionId::Ar4, _) => self.ar_4_send_release_rp(),
                (ActionId::Ar5, _) => self.ar_5_stop_artim_timer(),
                (ActionId::Ar6, _) => self.ar_6_indicate_pdata(),
                (ActionId::Ar7, _) => self.no_action(),
                (ActionId::Ar8, _) => self.ar_8_indicate_association_release(),
                (ActionId::Ar9, _) => self.ar_9_send_association_release_rp(),
                (ActionId::Ar10, _) => self.ar_10_confirm_release(),
                    (_, _) => {
                        proof {
                            assert(false);
                        }
                        Err(Error::NoAction)
                    },
                }
            },
        }
    }
}

/// The result container the negotiation produces for one proposed context.
pub open spec fn negotiated_result_of(
    p: PresentationContextProposedView,
    supported: Seq<SupportedContextView>,
) -> PresentationContextResultView {
    PresentationContextResultView {
        id: p.id,
        reason: negotiation_outcome(p, supported).0,
        transfer_syntax: negotiation_outcome(p, supported).1,
    }
}

/// The result containers for the proposed contexts from position `i` on.
pub open spec fn negotiated_results_from(
    proposed: Seq<PresentationContextProposedView>,
    supported: Seq<SupportedContextView>,
    i: int,
) -> Seq<PresentationContextResultView>
    decreases proposed.len() - i,
{
    if i < 0 || i >= proposed.len() {
        Seq::empty()
    } else {
        seq![negotiated_result_of(proposed[i], supported)] + negotiated_results_from(
            proposed,
            supported,
            i + 1,
        )
    }
}

/// The result containers for all proposed contexts, in proposal order.
pub open spec fn negotiated_results(
    proposed: Seq<PresentationContextProposedView>,
    supported: Seq<SupportedContextView>,
) -> Seq<PresentationContextResultView> {
    negotiated_results_from(proposed, supported, 0)
}

/// The accepted contexts among the proposed ones from position `i` on:
/// those whose negotiation outcome is acceptance, each keeping the
/// proposing side's identifier and abstract syntax.
pub open spec fn accepted_contexts_from(
    proposed: Seq<PresentationContextProposedView>,
    supported: Seq<SupportedContextView>,
    i: int,
) -> Seq<AcceptedContextView>
    decreases proposed.len() - i,
{
    if i < 0 || i >= proposed.len() {
        Seq::empty()
    } else {
        let rest = accepted_contexts_from(proposed, supported, i + 1);
        if negotiation_outcome(proposed[i], supported).0
            == PresentationContextResultReason::Acceptance {
            seq![
                AcceptedContextView {
                    id: proposed[i].id,
                    abstract_syntax: proposed[i].abstract_syntax,
                    transfer_syntax: negotiation_outcome(proposed[i], supported).1,
                },
            ] + rest
        } else {
            rest
        }
    }
}

/// The accepted contexts among all proposed ones, in proposal order.
pub open spec fn accepted_contexts_of(
    proposed: Seq<PresentationContextProposedView>,
    supported: Seq<SupportedContextView>,
) -> Seq<AcceptedContextView> {
    accepted_contexts_from(proposed, supported, 0)
}

/// The event one received PDU is routed to.
pub open spec fn event_for_pdu(pdu: PDU) -> Event {
    match pdu {
        PDU::AssociationAC(_) => Event::AAssociateAcPduRcv,
        PDU::AssociationRJ(_) => Event::AAssociateRjPduRcv,
        PDU::AssociationRQ(d) => Event::AAssociateRqPduRcv(d),
        PDU::PData(d) => Event::PDataTfPduRcv(d),
        PDU::ReleaseRQ => Event::AReleaseRQPduRcv,
        PDU::ReleaseRP => Event::AReleaseRpPduRcv,
        PDU::AbortRQ(_) => Event::AAbortPduRcv,
        PDU::Unknown(_) => Event::InvalidPdu,
    }
}

impl Association {
    /// Begin accepting an association on a transport connection that just
    /// opened: a fresh acceptor-side state machine, taken to `State02` by
    /// the transport connection indication.
    pub fn receive_association(options: AssociationOptions) -> (r: Result<Association, Error>)
        ensures
            r matches Ok(a) ==> {
                &&& a.state_machine.state == State::State02
                &&& a.state_machine.role == AssociationRole::Acceptor
                &&& a.association_rq is None
                &&& a.accepted_contexts@.len() == 0
                &&& a.current_pdata is None
                &&& a.options == options
                &&& a.outgoing@.len() == 0
                &&& !a.wants_shutdown
            },
            r is Ok,
    {
        let mut association = Association {
            state_machine: StateMachine::new(AssociationRole::Acceptor),
            association_rq: None,
            accepted_contexts: Vec::new(),
            current_pdata: None,
            options,
            outgoing: Vec::new(),
            wants_shutdown: false,
        };
        association.process_event(Event::TransConnIndication)?;
        Ok(association)
    }

    /// Route one received PDU to the state machine event it stands for.
    fn route_pdu(&mut self, pdu: PDU) -> (r: Result<(), Error>)
        ensures
            final(self).state_machine.role == old(self).state_machine.role,
            final(self).options == old(self).options,
            final(self).accepted_contexts == old(self).accepted_contexts,
            table_action(old(self).state_machine.state, event_for_pdu(pdu)) is None ==> {
                &&& *final(self) == *old(self)
                &&& r == Err::<(), Error>(
                    Error::InvalidEventForState(old(self).state_machine.state),
                )
            },
            table_action(old(self).state_machine.state, event_for_pdu(pdu)) matches Some(a) ==> {
                &&& final(self).state_machine.state == (if a == ActionId::Ae6 {
                    State::State03
                } else {
                    table_next(
                        old(self).state_machine.state,
                        event_for_pdu(pdu),
                        old(self).state_machine.role,
                    )
                })
                &&& action_succeeds(a) ==> r is Ok
                &&& !action_succeeds(a) ==> r == Err::<(), Error>(action_error(a))
                &&& match action_output(a, event_for_pdu(pdu)) {
                    Some(p) => final(self).outgoing@ == old(self).outgoing@.push(p),
                    None => final(self).outgoing == old(self).outgoing,
                }
                &&& final(self).wants_shutdown == (old(self).wants_shutdown || action_shuts_down(
                    a,
                ))
                &&& final(self).current_pdata == (if a == ActionId::Dt2 {
                    match pdu {
                        PDU::PData(d) => Some(d),
                        _ => old(self).current_pdata,
                    }
                } else {
                    old(self).current_pdata
                })
                &&& final(self).association_rq == (if a == ActionId::Ae6 {
                    match pdu {
                        PDU::AssociationRQ(d) => Some(d),
                        _ => old(self).association_rq,
                    }
                } else {
                    old(self).association_rq
                })
            },
    {
        match pdu {
            PDU::AssociationAC(_) => self.process_event(Event::AAssociateAcPduRcv),
            PDU::AssociationRJ(_) => self.process_event(Event::AAssociateRjPduRcv),
            PDU::AssociationRQ(data) => self.process_event(Event::AAssociateRqPduRcv(data)),
            PDU::PData(data) => self.process_event(Event::PDataTfPduRcv(data)),
            PDU::ReleaseRQ => self.process_event(Event::AReleaseRQPduRcv),
            PDU::ReleaseRP => self.process_event(Event::AReleaseRpPduRcv),
            PDU::AbortRQ(_) => self.process_event(Event::AAbortPduRcv),
            PDU::Unknown(_) => self.process_event(Event::InvalidPdu),
        }
    }

    /// Continue the acceptance after the one PDU read that follows the
    /// transport opening: route what was read, require the examination to
    /// have taken place, negotiate every proposed context against the
    /// supported set, and queue an A-ASSOCIATE-AC that lists each verdict
    /// and advertises this side's maximum PDU size.
    ///
    /// On success the association is established: the state is `State06`,
    /// the accepted contexts are exactly the negotiation's acceptances, and
    /// the last queued PDU is the AC.
    pub fn continue_receive_association(&mut self, outcome: ReadOutcome) -> (r: Result<
        (),
        Error,
    >)
        ensures
            final(self).options == old(self).options,
            final(self).state_machine.role == old(self).state_machine.role,
            outcome is Eof && old(self).state_machine.state == State::State02 ==> {
                &&& r == Err::<(), Error>(Error::NoPDUAvailable)
                &&& final(self).state_machine.state == State::State01
                &&& final(self).outgoing == old(self).outgoing
                &&& final(self).accepted_contexts == old(self).accepted_contexts
            },
            outcome is TimedOut && old(self).state_machine.state == State::State02 ==> {
                &&& r == Err::<(), Error>(Error::UnexpectedState(State::State01))
                &&& final(self).state_machine.state == State::State01
                &&& final(self).outgoing == old(self).outgoing
                &&& final(self).accepted_contexts == old(self).accepted_contexts
                &&& final(self).wants_shutdown
            },
            old(self).state_machine.state == State::State02 ==> (outcome matches ReadOutcome::Pdu(
                p,
            ) ==> {
                &&& (p matches PDU::AssociationRQ(d) ==> {
                    &&& r is Ok
                    &&& final(self).association_rq == Some(d)
                })
                &&& (!(p is AssociationRQ) && !(p is AbortRQ)) ==> {
                    &&& r == Err::<(), Error>(Error::UnexpectedState(State::State13))
                    &&& final(self).state_machine.state == State::State13
                    &&& final(self).outgoing@ == old(self).outgoing@.push(
                        PDU::AbortRQ(AbortRQContainer { source: AbortRQSource::ServiceUser }),
                    )
                    &&& final(self).accepted_contexts == old(self).accepted_contexts
                }
                &&& p is AbortRQ ==> {
                    &&& r == Err::<(), Error>(Error::UnexpectedState(State::State01))
                    &&& final(self).state_machine.state == State::State01
                    &&& final(self).wants_shutdown
                    &&& final(self).outgoing == old(self).outgoing
                    &&& final(self).accepted_contexts == old(self).accepted_contexts
                }
            }),
            r is Ok ==> {
                &&& final(self).state_machine.state == State::State06
                &&& final(self).association_rq matches Some(rq) && {
                    &&& final(self).accepted_contexts.deep_view() == old(
                        self,
                    ).accepted_contexts.deep_view() + accepted_contexts_of(
                        rq@.presentation_contexts,
                        old(self).options.supported_contexts.deep_view(),
                    )
                    &&& final(self).outgoing@.len() >= 1
                    &&& final(self).outgoing@.last() matches PDU::AssociationAC(ac) && {
                        &&& ac@.presentation_contexts == negotiated_results(
                            rq@.presentation_contexts,
                            old(self).options.supported_contexts.deep_view(),
                        )
                        &&& ac@.user_variables == seq![
                            UserVariableItemView::MaxLength(old(self).options.max_pdu_size),
                        ]
                        &&& ac@.protocol_version == 1
                        &&& ac@.application_context_name == Seq::<u8>::empty()
                    }
                }
            },
    {
        match outcome {
            ReadOutcome::Pdu(pdu) => {
                self.route_pdu(pdu)?;
            },
            ReadOutcome::Eof => {
                self.process_event(Event::TransConnClosed)?;
                return Err(Error::NoPDUAvailable);
            },
            ReadOutcome::TimedOut => {
                self.process_event(Event::ArtimTimerExpired)?;
            },
        }
        if self.state_machine.get_state() != State::State03 {
            return Err(Error::UnexpectedState(self.state_machine.get_state()));
        }
        let rq = match self.association_rq.take() {
            Some(rq) => rq,
            None => {
                return Err(Error::InconsistentState);
            },
        };
        let ghost proposed_seq = rq@.presentation_contexts;
        let ghost supported_seq = self.options.supported_contexts.deep_view();
        let ghost outgoing_at_loop = self.outgoing;
        let ghost pdata_at_loop = self.current_pdata;
        let ghost shutdown_at_loop = self.wants_shutdown;
        let ghost accepted_at_entry = self.accepted_contexts.deep_view();
        let mut results: Vec<PresentationContextResult> = Vec::new();
        let mut i: usize = 0;
        while i < rq.presentation_contexts.len()
            invariant
                i <= rq.presentation_contexts.len(),
                proposed_seq == rq@.presentation_contexts,
                supported_seq == self.options.supported_contexts.deep_view(),
                results.deep_view() + negotiated_results_from(
                    proposed_seq,
                    supported_seq,
                    i as int,
                ) == negotiated_results(proposed_seq, supported_seq),
                self.accepted_contexts.deep_view() + accepted_contexts_from(
                    proposed_seq,
                    supported_seq,
                    i as int,
                ) == accepted_at_entry + accepted_contexts_of(proposed_seq, supported_seq),
                accepted_at_entry == old(self).accepted_contexts.deep_view(),
                self.state_machine.state == State::State03,
                self.state_machine.role == old(self).state_machine.role,
                self.association_rq is None,
                self.current_pdata == pdata_at_loop,
                self.options == old(self).options,
                self.outgoing == outgoing_at_loop,
                self.wants_shutdown == shutdown_at_loop,
            decreases rq.presentation_contexts.len() - i,
        {
            let ghost pre_results = results.deep_view();
            let ghost pre_accepted = self.accepted_contexts.deep_view();
            let proposed_context = &rq.presentation_contexts[i];
            proof {
                assert(proposed_context@ == proposed_seq[i as int]);
            }
            let result = proposed_context.accept(self.options.supported_contexts.as_slice());
            let ghost rv = negotiated_result_of(proposed_seq[i as int], supported_seq);
            proof {
                assert(result@ =~= rv);
            }
            if result.reason == PresentationContextResultReason::Acceptance {
                self.accepted_contexts.push(
                    AcceptedContext {
                        id: proposed_context.id,
                        abstract_syntax: clone_bytes(&proposed_context.abstract_syntax),
                        transfer_syntax: clone_bytes(&result.transfer_syntax),
                    },
                );
                proof {
                    assert(self.accepted_contexts.deep_view() =~= pre_accepted.push(
                        AcceptedContextView {
                            id: proposed_seq[i as int].id,
                            abstract_syntax: proposed_seq[i as int].abstract_syntax,
                            transfer_syntax: negotiation_outcome(
                                proposed_seq[i as int],
                                supported_seq,
                            ).1,
                        },
                    ));
                }
            }
            results.push(result);
            proof {
                assert(results.deep_view() =~= pre_results.push(rv));
                assert(negotiated_results_from(proposed_seq, supported_seq, i as int) == seq![rv]
                    + negotiated_results_from(proposed_seq, supported_seq, i + 1));
                assert(results.deep_view() + negotiated_results_from(
                    proposed_seq,
                    supported_seq,
                    i + 1,
                ) =~= pre_results + negotiated_results_from(proposed_seq, supported_seq, i as int));
                assert(self.accepted_contexts.deep_view() + accepted_contexts_from(
                    proposed_seq,
                    supported_seq,
                    i + 1,
                ) =~= pre_accepted + accepted_contexts_from(proposed_seq, supported_seq, i as int));
            }
            i += 1;
        }
        let mut user_variables: Vec<UserVariableItem> = Vec::new();
        user_variables.push(UserVariableItem::MaxLength(self.options.max_pdu_size));
        proof {
            assert(user_variables.deep_view() =~= seq![
                UserVariableItemView::MaxLength(self.options.max_pdu_size),
            ]);
        }
        let ac = AssociateACContainer {
            protocol_version: 1,
            application_context_name: Vec::new(),
            presentation_contexts: results,
            user_variables,
        };
        self.association_rq = Some(rq);
        proof {
            assert(negotiated_results_from(proposed_seq, supported_seq, i as int)
                =~= Seq::<PresentationContextResultView>::empty());
            assert(accepted_contexts_from(proposed_seq, supported_seq, i as int)
                =~= Seq::<AcceptedContextView>::empty());
            assert(ac@.presentation_contexts =~= negotiated_results(proposed_seq, supported_seq));
        }
        self.process_event(Event::AAssociateResponseAccept(ac))?;
        Ok(())
    }

    /// Route one read outcome and hand back the P-DATA container it
    /// delivered. A clean end of stream is a closed transport; a timeout is
    /// an expired timer; both end the read without data. A P-DATA PDU in
    /// the established state comes back exactly as received.
    pub fn read_pdata(&mut self, outcome: ReadOutcome) -> (r: Result<PDataContainer, Error>)
        ensures
            final(self).options == old(self).options,
            final(self).state_machine.role == old(self).state_machine.role,
            final(self).accepted_contexts == old(self).accepted_contexts,
            r is Ok ==> final(self).current_pdata is None,
            outcome is Eof && old(self).state_machine.state == State::State06 ==> r == Err::<
                PDataContainer,
                Error,
            >(Error::PeerAbortedAssociation) && final(self).state_machine.state
                == State::State01 && final(self).wants_shutdown,
            outcome matches ReadOutcome::Pdu(p) ==> (p matches PDU::AbortRQ(_) ==> (
            table_action(old(self).state_machine.state, Event::AAbortPduRcv) == Some(
                ActionId::Aa3,
            ) ==> {
                &&& r == Err::<PDataContainer, Error>(Error::PeerAbortedAssociation)
                &&& final(self).state_machine.state == State::State01
                &&& final(self).wants_shutdown
                &&& final(self).outgoing == old(self).outgoing
            })),
            outcome matches ReadOutcome::Pdu(p) ==> (p matches PDU::PData(d) ==> (old(
                self,
            ).state_machine.state == State::State06 ==> {
                &&& r == Ok::<PDataContainer, Error>(d)
                &&& final(self).state_machine.state == State::State06
                &&& final(self).outgoing == old(self).outgoing
            })),
    {
        match outcome {
            ReadOutcome::Pdu(pdu) => {
                self.route_pdu(pdu)?;
            },
            ReadOutcome::Eof => {
                self.process_event(Event::TransConnClosed)?;
                return Err(Error::NoPDUAvailable);
            },
            ReadOutcome::TimedOut => {
                self.process_event(Event::ArtimTimerExpired)?;
            },
        }
        match self.current_pdata.take() {
            Some(pdata) => Ok(pdata),
            None => Err(Error::InconsistentState),
        }
    }

    /// The accepted context a PDV refers to, looked up by identifier.
    pub fn accepted_context_for(&self, id: u8) -> (r: Result<AcceptedContext, Error>)
        ensures
            match find_accepted(self.accepted_contexts.deep_view(), id, 0) {
                Some(c) => r matches Ok(found) && found@ == c,
                None => r == Err::<AcceptedContext, Error>(Error::InvalidPresentationContextId),
            },
    {
        let mut i: usize = 0;
        while i < self.accepted_contexts.len()
            invariant
                i <= self.accepted_contexts.len(),
                find_accepted(self.accepted_contexts.deep_view(), id, 0) == find_accepted(
                    self.accepted_contexts.deep_view(),
                    id,
                    i as int,
                ),
            decreases self.accepted_contexts.len() - i,
        {
            if self.accepted_contexts[i].id == id {
                return Ok(self.accepted_contexts[i].clone());
            }
            i += 1;
        }
        Err(Error::InvalidPresentationContextId)
    }

    /// Abort the association from this side: the state machine queues an
    /// A-ABORT PDU (or closes the transport while still connecting).
    pub fn abort_association(&mut self) -> (r: Result<(), Error>)
        ensures
            final(self).state_machine.role == old(self).state_machine.role,
            final(self).options == old(self).options,
            final(self).accepted_contexts == old(self).accepted_contexts,
            table_action(old(self).state_machine.state, Event::AAbortReq) is None ==> {
                &&& *final(self) == *old(self)
                &&& r == Err::<(), Error>(
                    Error::InvalidEventForState(old(self).state_machine.state),
                )
            },
            table_action(old(self).state_machine.state, Event::AAbortReq) matches Some(a) ==> {
                &&& final(self).state_machine.state == table_next(
                    old(self).state_machine.state,
                    Event::AAbortReq,
                    old(self).state_machine.role,
                )
                &&& r is Ok
                &&& final(self).outgoing@ == (match action_output(a, Event::AAbortReq) {
                    Some(p) => old(self).outgoing@.push(p),
                    None => old(self).outgoing@,
                })
            },
    {
        self.process_event(Event::AAbortReq)
    }

    /// Hand over every queued PDU, leaving the queue empty. Whoever owns
    /// the transport writes them out in this order.
    pub fn take_outgoing(&mut self) -> (r: Vec<PDU>)
        ensures
            r == old(self).outgoing,
            final(self).outgoing@.len() == 0,
            final(self).state_machine == old(self).state_machine,
            final(self).association_rq == old(self).association_rq,
            final(self).accepted_contexts == old(self).accepted_contexts,
            final(self).current_pdata == old(self).current_pdata,
            final(self).options == old(self).options,
            final(self).wants_shutdown == old(self).wants_shutdown,
    {
        let mut taken: Vec<PDU> = Vec::new();
        core::mem::swap(&mut taken, &mut self.outgoing);
        taken
    }
}

/// What `find_accepted` returns carries the identifier it was asked for.
pub proof fn lemma_find_accepted_id(l: Seq<AcceptedContextView>, id: u8, i: int)
    ensures
        find_accepted(l, id, i) matches Some(c) ==> c.id == id,
    decreases l.len() - i,
{
    if 0 <= i < l.len() && l[i].id != id {
        lemma_find_accepted_id(l, id, i + 1);
    }
}

/// From idle, the acceptance path reaches the established state: a
/// transport indication leads to the transport-open state, an association
/// request examined with acceptance leads to awaiting the local response,
/// and the local acceptance response leads to the established state.
pub proof fn lemma_acceptance_path_reaches_established(
    role: AssociationRole,
    rq: AssociateRQContainer,
    ac: AssociateACContainer,
)
    ensures
        table_action(State::State01, Event::TransConnIndication) == Some(ActionId::Ae5),
        table_next(State::State01, Event::TransConnIndication, role) == State::State02,
        table_action(State::State02, Event::AAssociateRqPduRcv(rq)) == Some(ActionId::Ae6),
        table_action(State::State03, Event::AAssociateResponseAccept(ac)) == Some(ActionId::Ae7),
        table_next(State::State03, Event::AAssociateResponseAccept(ac), role) == State::State06,
{
}

/// In the transport-open state, any PDU other than an association request
/// or an abort draws the send-abort action and leads to the
/// awaiting-close state.
pub proof fn lemma_transport_open_rejects_unexpected_pdus(pdu: PDU, role: AssociationRole)
    requires
        !(pdu is AssociationRQ),
        !(pdu is AbortRQ),
    ensures
        table_action(State::State02, event_for_pdu(pdu)) == Some(ActionId::Aa1),
        table_next(State::State02, event_for_pdu(pdu), role) == State::State13,
        action_output(ActionId::Aa1, event_for_pdu(pdu)) == Some(
            PDU::AbortRQ(AbortRQContainer { source: AbortRQSource::ServiceUser }),
        ),
{
}

/// In every state from awaiting the local response through the release
/// collisions, an abort PDU from the peer leads back to idle through the
/// peer-abort indication, and that indication surfaces
/// `PeerAbortedAssociation`.
pub proof fn lemma_abort_pdu_returns_to_idle(s: State, role: AssociationRole)
    requires
        s != State::State01,
        s != State::State02,
        s != State::State04,
        s != State::State13,
    ensures
        table_action(s, Event::AAbortPduRcv) == Some(ActionId::Aa3),
        table_next(s, Event::AAbortPduRcv, role) == State::State01,
        !action_succeeds(ActionId::Aa3),
        action_error(ActionId::Aa3) == Error::PeerAbortedAssociation,
        action_shuts_down(ActionId::Aa3),
{
}

/// The first accepted context with identifier `id`, scanning from `i`.
pub open spec fn find_accepted(l: Seq<AcceptedContextView>, id: u8, i: int) -> Option<
    AcceptedContextView,
>
    decreases l.len() - i,
{
    if i < 0 || i >= l.len() {
        None
    } else if l[i].id == id {
        Some(l[i])
    } else {
        find_accepted(l, id, i + 1)
    }
}


} // verus!
