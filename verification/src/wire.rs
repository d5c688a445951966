use vstd::prelude::*;
use crate::pdu::{
    AbortRQContainer, AbortRQServiceProviderReason, AbortRQSource, AssociateACContainerView,
    AssociateRJContainer, AssociateRQContainerView, AssociationRJResult, AssociationRJSource,
    AssociationRJServiceProviderASCEReason, AssociationRJServiceProviderPresentationReason,
    AssociationRJServiceUserReason, PDUView, PDataValueType, PDataValueView,
    PresentationContextProposedView, PresentationContextResultReason,
    PresentationContextResultView, UnknownContainerView, UserVariableItemView,
};

verus! {

/// A 16-bit integer as two big-endian bytes.
pub open spec fn be16(x: u16) -> Seq<u8> {
    seq![(x / 256) as u8, (x % 256) as u8]
}

/// A 32-bit integer as four big-endian bytes.
pub open spec fn be32(x: u32) -> Seq<u8> {
    seq![
        (x / 0x1000000) as u8,
        ((x / 0x10000) % 256) as u8,
        ((x / 256) % 256) as u8,
        (x % 256) as u8,
    ]
}

/// The value of two big-endian bytes.
pub open spec fn dec16(b: Seq<u8>) -> int {
    b[0] * 256 + b[1]
}

/// The value of four big-endian bytes.
pub open spec fn dec32(b: Seq<u8>) -> int {
    b[0] * 0x1000000 + b[1] * 0x10000 + b[2] * 256 + b[3]
}

/// A sub-item of an association PDU: type byte, a reserved byte, the body
/// length as a big-endian 16-bit integer, then the body.
pub open spec fn enc_item16(t: u8, body: Seq<u8>) -> Seq<u8> {
    seq![t, 0u8] + be16(body.len() as u16) + body
}

/// An application context item.
pub open spec fn enc_app_context(name: Seq<u8>) -> Seq<u8> {
    enc_item16(0x10, name)
}

/// An abstract syntax sub-item.
pub open spec fn enc_abstract_syntax(a: Seq<u8>) -> Seq<u8> {
    enc_item16(0x30, a)
}

/// A transfer syntax sub-item.
pub open spec fn enc_transfer_syntax(t: Seq<u8>) -> Seq<u8> {
    enc_item16(0x40, t)
}

/// The transfer syntax sub-items from position `i` on, concatenated.
pub open spec fn enc_transfer_syntaxes_from(l: Seq<Seq<u8>>, i: int) -> Seq<u8>
    decreases l.len() - i,
{
    if i < 0 || i >= l.len() {
        Seq::empty()
    } else {
        enc_transfer_syntax(l[i]) + enc_transfer_syntaxes_from(l, i + 1)
    }
}

/// The body of a proposed presentation context item: the context
/// identifier, three reserved bytes, the abstract syntax sub-item, then
/// one transfer syntax sub-item per offered transfer syntax.
pub open spec fn enc_pc_proposed_body(p: PresentationContextProposedView) -> Seq<u8> {
    seq![p.id, 0u8, 0u8, 0u8] + enc_abstract_syntax(p.abstract_syntax)
        + enc_transfer_syntaxes_from(p.transfer_syntaxes, 0)
}

/// A proposed presentation context item.
pub open spec fn enc_pc_proposed(p: PresentationContextProposedView) -> Seq<u8> {
    enc_item16(0x20, enc_pc_proposed_body(p))
}

/// The proposed presentation context items from position `i` on.
pub open spec fn enc_pcs_proposed_from(l: Seq<PresentationContextProposedView>, i: int) -> Seq<
    u8,
>
    decreases l.len() - i,
{
    if i < 0 || i >= l.len() {
        Seq::empty()
    } else {
        enc_pc_proposed(l[i]) + enc_pcs_proposed_from(l, i + 1)
    }
}

/// The byte a presentation context result reason is carried as.
pub open spec fn reason_byte(r: PresentationContextResultReason) -> u8 {
    match r {
        PresentationContextResultReason::Acceptance => 0u8,
        PresentationContextResultReason::UserRejection => 1u8,
        PresentationContextResultReason::NoReason => 2u8,
        PresentationContextResultReason::AbstractSyntaxNotSupported => 3u8,
        PresentationContextResultReason::TransferSyntaxesNotSupported => 4u8,
    }
}

/// The body of a presentation context result item: the context identifier,
/// a reserved byte, the result byte, a reserved byte, then the chosen
/// transfer syntax as a sub-item.
pub open spec fn enc_pc_result_body(p: PresentationContextResultView) -> Seq<u8> {
    seq![p.id, 0u8, reason_byte(p.reason), 0u8] + enc_transfer_syntax(p.transfer_syntax)
}

/// A presentation context result item.
pub open spec fn enc_pc_result(p: PresentationContextResultView) -> Seq<u8> {
    enc_item16(0x21, enc_pc_result_body(p))
}

/// The presentation context result items from position `i` on.
pub open spec fn enc_pcs_result_from(l: Seq<PresentationContextResultView>, i: int) -> Seq<u8>
    decreases l.len() - i,
{
    if i < 0 || i >= l.len() {
        Seq::empty()
    } else {
        enc_pc_result(l[i]) + enc_pcs_result_from(l, i + 1)
    }
}

/// One user information sub-item.
pub open spec fn enc_user_item(u: UserVariableItemView) -> Seq<u8> {
    match u {
        UserVariableItemView::Unknown(t) => enc_item16(t, Seq::empty()),
        UserVariableItemView::MaxLength(m) => enc_item16(0x51, be32(m)),
        UserVariableItemView::ImplementationClassUID(s) => enc_item16(0x52, s),
        UserVariableItemView::ImplementationVersionName(s) => enc_item16(0x55, s),
    }
}

/// The user information sub-items from position `i` on.
pub open spec fn enc_user_items_from(l: Seq<UserVariableItemView>, i: int) -> Seq<u8>
    decreases l.len() - i,
{
    if i < 0 || i >= l.len() {
        Seq::empty()
    } else {
        enc_user_item(l[i]) + enc_user_items_from(l, i + 1)
    }
}

/// The user information item, holding its sub-items.
pub open spec fn enc_user_info(l: Seq<UserVariableItemView>) -> Seq<u8> {
    enc_item16(0x50, enc_user_items_from(l, 0))
}

/// An application entity title padded with spaces to sixteen bytes.
pub open spec fn pad_ae(s: Seq<u8>) -> Seq<u8> {
    s + Seq::new((16 - s.len()) as nat, |j: int| 32u8)
}

/// A run of zero bytes.
pub open spec fn zeros(n: nat) -> Seq<u8> {
    Seq::new(n, |j: int| 0u8)
}

/// The payload of an A-ASSOCIATE-RQ PDU: protocol version, two reserved
/// bytes, the called and calling application entity titles padded to
/// sixteen bytes each, thirty-two reserved bytes, then the application
/// context item, the proposed presentation context items in order, and the
/// user information item.
pub open spec fn enc_rq_payload(rq: AssociateRQContainerView) -> Seq<u8> {
    be16(rq.protocol_version) + zeros(2) + pad_ae(rq.called_ae_title) + pad_ae(
        rq.calling_ae_title,
    ) + zeros(32) + enc_app_context(rq.application_context_name) + enc_pcs_proposed_from(
        rq.presentation_contexts,
        0,
    ) + enc_user_info(rq.user_variables)
}

/// The payload of an A-ASSOCIATE-AC PDU: protocol version, two reserved
/// bytes, sixty-four reserved bytes, then the application context item,
/// the presentation context result items in order, and the user
/// information item.
pub open spec fn enc_ac_payload(ac: AssociateACContainerView) -> Seq<u8> {
    be16(ac.protocol_version) + zeros(2) + zeros(64) + enc_app_context(
        ac.application_context_name,
    ) + enc_pcs_result_from(ac.presentation_contexts, 0) + enc_user_info(ac.user_variables)
}

/// The byte an association rejection result is carried as.
pub open spec fn rj_result_byte(r: AssociationRJResult) -> u8 {
    match r {
        AssociationRJResult::Permanent => 1u8,
        AssociationRJResult::Transient => 2u8,
    }
}

/// The byte an association rejection source is carried as.
pub open spec fn rj_source_byte(s: AssociationRJSource) -> u8 {
    match s {
        AssociationRJSource::ServiceUser(_) => 1u8,
        AssociationRJSource::ServiceProviderASCE(_) => 2u8,
        AssociationRJSource::ServiceProviderPresentation(_) => 3u8,
    }
}

/// The byte an association rejection reason is carried as.
pub open spec fn rj_reason_byte(s: AssociationRJSource) -> u8 {
    match s {
        AssociationRJSource::ServiceUser(r) => match r {
            AssociationRJServiceUserReason::NoReasonGiven => 1u8,
            AssociationRJServiceUserReason::ApplicationContextNameNotSupported => 2u8,
            AssociationRJServiceUserReason::CallingAETitleNotRecognized => 3u8,
            AssociationRJServiceUserReason::CalledAETitleNotRecognized => 7u8,
            AssociationRJServiceUserReason::Reserved(b) => b,
        },
        AssociationRJSource::ServiceProviderASCE(r) => match r {
            AssociationRJServiceProviderASCEReason::NoReasonGiven => 1u8,
            AssociationRJServiceProviderASCEReason::ProtocolVersionNotSupported => 2u8,
        },
        AssociationRJSource::ServiceProviderPresentation(r) => match r {
            AssociationRJServiceProviderPresentationReason::TemporaryCongestion => 1u8,
            AssociationRJServiceProviderPresentationReason::LocalLimitExceeded => 2u8,
            AssociationRJServiceProviderPresentationReason::Reserved(b) => b,
        },
    }
}

/// The payload of an A-ASSOCIATE-RJ PDU: a reserved byte, the result, the
/// source, and the reason.
pub open spec fn enc_rj_payload(rj: AssociateRJContainer) -> Seq<u8> {
    seq![0u8, rj_result_byte(rj.result), rj_source_byte(rj.source), rj_reason_byte(rj.source)]
}

/// The message control header of a PDV: bit zero set for a command, bit
/// one set for the last fragment.
pub open spec fn mch_byte(v: PDataValueView) -> u8 {
    match (v.value_type, v.is_last) {
        (PDataValueType::Data, false) => 0u8,
        (PDataValueType::Command, false) => 1u8,
        (PDataValueType::Data, true) => 2u8,
        (PDataValueType::Command, true) => 3u8,
    }
}

/// One presentation data value on the wire: the item length (two bytes of
/// header plus the payload), the presentation context identifier, the
/// message control header, then the payload.
pub open spec fn enc_pdv(v: PDataValueView) -> Seq<u8> {
    be32((v.data.len() + 2) as u32) + seq![v.presentation_context_id, mch_byte(v)] + v.data
}

/// The presentation data values from position `i` on.
pub open spec fn enc_pdvs_from(l: Seq<PDataValueView>, i: int) -> Seq<u8>
    decreases l.len() - i,
{
    if i < 0 || i >= l.len() {
        Seq::empty()
    } else {
        enc_pdv(l[i]) + enc_pdvs_from(l, i + 1)
    }
}

/// The byte an abort source is carried as.
pub open spec fn abort_source_byte(s: AbortRQSource) -> u8 {
    match s {
        AbortRQSource::ServiceUser => 0u8,
        AbortRQSource::Reserved => 1u8,
        AbortRQSource::ServiceProvider(_) => 2u8,
    }
}

/// The byte an abort reason is carried as; zero unless the service
/// provider gave one.
pub open spec fn abort_reason_byte(s: AbortRQSource) -> u8 {
    match s {
        AbortRQSource::ServiceProvider(r) => match r {
            AbortRQServiceProviderReason::ReasonNotSpecifiedUnrecognizedPDU => 0u8,
            AbortRQServiceProviderReason::UnexpectedPDU => 1u8,
            AbortRQServiceProviderReason::Reserved => 2u8,
            AbortRQServiceProviderReason::UnrecognizedPDUParameter => 3u8,
            AbortRQServiceProviderReason::UnexpectedPDUParameter => 4u8,
            AbortRQServiceProviderReason::InvalidPDUParameter => 5u8,
        },
        _ => 0u8,
    }
}

/// The payload of an A-ABORT PDU: two reserved bytes, the source, and the
/// reason.
pub open spec fn enc_abort_payload(a: AbortRQContainer) -> Seq<u8> {
    seq![0u8, 0u8, abort_source_byte(a.source), abort_reason_byte(a.source)]
}

/// The type byte of a PDU.
pub open spec fn pdu_type_byte(p: PDUView) -> u8 {
    match p {
        PDUView::AssociationRQ(_) => 0x01u8,
        PDUView::AssociationAC(_) => 0x02u8,
        PDUView::AssociationRJ(_) => 0x03u8,
        PDUView::PData(_) => 0x04u8,
        PDUView::ReleaseRQ => 0x05u8,
        PDUView::ReleaseRP => 0x06u8,
        PDUView::AbortRQ(_) => 0x07u8,
        PDUView::Unknown(u) => u.pdu_type,
    }
}

/// The payload of a PDU, without the six header bytes.
pub open spec fn enc_pdu_payload(p: PDUView) -> Seq<u8> {
    match p {
        PDUView::AssociationRQ(rq) => enc_rq_payload(rq),
        PDUView::AssociationAC(ac) => enc_ac_payload(ac),
        PDUView::AssociationRJ(rj) => enc_rj_payload(rj),
        PDUView::PData(d) => enc_pdvs_from(d.data, 0),
        PDUView::ReleaseRQ => zeros(4),
        PDUView::ReleaseRP => zeros(4),
        PDUView::AbortRQ(a) => enc_abort_payload(a),
        PDUView::Unknown(u) => u.data,
    }
}

/// A whole PDU on the wire: the type byte, a reserved byte, the payload
/// length as a big-endian 32-bit integer, then the payload.
pub open spec fn enc_pdu(p: PDUView) -> Seq<u8> {
    seq![pdu_type_byte(p), 0u8] + be32(enc_pdu_payload(p).len() as u32) + enc_pdu_payload(p)
}

/// Every encoded sub-item carries the byte length of its body in its
/// third and fourth bytes, big-endian: the chunk law, at the level of the
/// wire format itself. Every item of an encoded association PDU has this
/// shape by construction.
pub proof fn lemma_item16_framing(t: u8, body: Seq<u8>)
    requires
        body.len() <= 0xFFFF,
    ensures
        enc_item16(t, body).len() == 4 + body.len(),
        enc_item16(t, body).subrange(2, 4) == be16(body.len() as u16),
        dec16(enc_item16(t, body).subrange(2, 4)) == body.len(),
        enc_item16(t, body).subrange(4, enc_item16(t, body).len() as int) == body,
{
    assert(enc_item16(t, body).subrange(2, 4) =~= be16(body.len() as u16));
    assert(enc_item16(t, body).subrange(4, enc_item16(t, body).len() as int) =~= body);
}

/// Every encoded PDU carries the byte length of its payload in bytes two
/// through five, big-endian: the chunk law at the outermost framing.
pub proof fn lemma_pdu_header_framing(p: PDUView)
    requires
        enc_pdu_payload(p).len() <= 0xFFFF_FFFF,
    ensures
        enc_pdu(p).len() == 6 + enc_pdu_payload(p).len(),
        enc_pdu(p).subrange(2, 6) == be32(enc_pdu_payload(p).len() as u32),
        dec32(enc_pdu(p).subrange(2, 6)) == enc_pdu_payload(p).len(),
        enc_pdu(p).subrange(6, enc_pdu(p).len() as int) == enc_pdu_payload(p),
{
    assert(enc_pdu(p).subrange(2, 6) =~= be32(enc_pdu_payload(p).len() as u32));
    assert(enc_pdu(p).subrange(6, enc_pdu(p).len() as int) =~= enc_pdu_payload(p));
}

/// A byte string short enough for a sub-item.
pub open spec fn wf_uid(s: Seq<u8>) -> bool {
    s.len() <= 0xFFFF
}

/// A well-formed application entity title: at most sixteen bytes and, so
/// that the padding added on the wire can be told apart from the title,
/// without a trailing space.
pub open spec fn wf_ae_title(s: Seq<u8>) -> bool {
    s.len() <= 16 && (s.len() == 0 || s[s.len() - 1] != 32)
}

/// A well-formed proposed presentation context: the strings fit their
/// sub-items and the whole body fits its item.
pub open spec fn wf_pc_proposed(p: PresentationContextProposedView) -> bool {
    &&& wf_uid(p.abstract_syntax)
    &&& forall|i: int| 0 <= i < p.transfer_syntaxes.len() ==> wf_uid(#[trigger] p.transfer_syntaxes[i])
    &&& enc_pc_proposed_body(p).len() <= 0xFFFF
}

/// A well-formed presentation context result.
pub open spec fn wf_pc_result(p: PresentationContextResultView) -> bool {
    &&& wf_uid(p.transfer_syntax)
    &&& enc_pc_result_body(p).len() <= 0xFFFF
}

/// A well-formed user information sub-item: an unknown sub-item may not
/// reuse one of the three known type bytes, and strings fit.
pub open spec fn wf_user_item(u: UserVariableItemView) -> bool {
    match u {
        UserVariableItemView::Unknown(t) => t != 0x51 && t != 0x52 && t != 0x55,
        UserVariableItemView::MaxLength(_) => true,
        UserVariableItemView::ImplementationClassUID(s) => wf_uid(s),
        UserVariableItemView::ImplementationVersionName(s) => wf_uid(s),
    }
}

/// A well-formed rejection: a reserved reason byte may not reuse a named
/// value.
pub open spec fn wf_rj(rj: AssociateRJContainer) -> bool {
    match rj.source {
        AssociationRJSource::ServiceUser(AssociationRJServiceUserReason::Reserved(b)) => b != 1
            && b != 2 && b != 3 && b != 7,
        AssociationRJSource::ServiceProviderPresentation(
            AssociationRJServiceProviderPresentationReason::Reserved(b),
        ) => b != 1 && b != 2,
        _ => true,
    }
}

/// A well-formed presentation data value: its item length fits.
pub open spec fn wf_pdv(v: PDataValueView) -> bool {
    v.data.len() + 2 <= 0xFFFF_FFFF
}

/// A well-formed PDU: every string fits where the format puts it, an
/// unknown PDU does not reuse one of the seven known type bytes, and the
/// payload length fits its four bytes.
pub open spec fn wf_pdu(p: PDUView) -> bool {
    &&& match p {
        PDUView::AssociationRQ(rq) => {
            &&& wf_ae_title(rq.calling_ae_title)
            &&& wf_ae_title(rq.called_ae_title)
            &&& wf_uid(rq.application_context_name)
            &&& forall|i: int|
                0 <= i < rq.presentation_contexts.len() ==> wf_pc_proposed(
                    #[trigger] rq.presentation_contexts[i],
                )
            &&& forall|i: int|
                0 <= i < rq.user_variables.len() ==> wf_user_item(
                    #[trigger] rq.user_variables[i],
                )
            &&& enc_user_items_from(rq.user_variables, 0).len() <= 0xFFFF
        },
        PDUView::AssociationAC(ac) => {
            &&& wf_uid(ac.application_context_name)
            &&& forall|i: int|
                0 <= i < ac.presentation_contexts.len() ==> wf_pc_result(
                    #[trigger] ac.presentation_contexts[i],
                )
            &&& forall|i: int|
                0 <= i < ac.user_variables.len() ==> wf_user_item(
                    #[trigger] ac.user_variables[i],
                )
            &&& enc_user_items_from(ac.user_variables, 0).len() <= 0xFFFF
        },
        PDUView::AssociationRJ(rj) => wf_rj(rj),
        PDUView::PData(d) => forall|i: int|
            0 <= i < d.data.len() ==> wf_pdv(#[trigger] d.data[i]),
        PDUView::ReleaseRQ => true,
        PDUView::ReleaseRP => true,
        PDUView::AbortRQ(_) => true,
        PDUView::Unknown(u) => u.pdu_type != 0x01 && u.pdu_type != 0x02 && u.pdu_type != 0x03
            && u.pdu_type != 0x04 && u.pdu_type != 0x05 && u.pdu_type != 0x06 && u.pdu_type
            != 0x07,
    }
    &&& enc_pdu_payload(p).len() <= 0xFFFF_FFFF
}

} // verus!
