use vstd::prelude::*;

verus! {

/// One presentation context as proposed by the association requester:
/// an odd identifier, an abstract syntax UID and the transfer syntax UIDs
/// the requester can use for it. UIDs are kept as their ASCII bytes.
#[derive(Debug)]
pub struct PresentationContextProposed {
    pub id: u8,
    pub abstract_syntax: Vec<u8>,
    pub transfer_syntaxes: Vec<Vec<u8>>,
}

/// The acceptor's verdict on one proposed presentation context.
/// When `reason` is not `Acceptance`, `transfer_syntax` is empty.
#[derive(Debug)]
pub struct PresentationContextResult {
    pub id: u8,
    pub reason: PresentationContextResultReason,
    pub transfer_syntax: Vec<u8>,
}

/// Why a proposed presentation context was accepted or turned down.
#[derive(Debug, Clone, Copy, PartialEq, Eq, Structural)]
pub enum PresentationContextResultReason {
    Acceptance,
    UserRejection,
    NoReason,
    AbstractSyntaxNotSupported,
    TransferSyntaxesNotSupported,
}

/// Whether an association rejection is permanent or transient.
#[derive(Debug, Clone, Copy, PartialEq, Eq, Structural)]
pub enum AssociationRJResult {
    Permanent,
    Transient,
}

/// Who rejected the association, with the reason that party gave.
#[derive(Debug, Clone, Copy, PartialEq, Eq, Structural)]
pub enum AssociationRJSource {
    ServiceUser(AssociationRJServiceUserReason),
    ServiceProviderASCE(AssociationRJServiceProviderASCEReason),
    ServiceProviderPresentation(AssociationRJServiceProviderPresentationReason),
}

/// Rejection reasons available to the service user.
#[derive(Debug, Clone, Copy, PartialEq, Eq, Structural)]
pub enum AssociationRJServiceUserReason {
    NoReasonGiven,
    ApplicationContextNameNotSupported,
    CallingAETitleNotRecognized,
    CalledAETitleNotRecognized,
    Reserved(u8),
}

/// Rejection reasons available to the service provider (ACSE level).
#[derive(Debug, Clone, Copy, PartialEq, Eq, Structural)]
pub enum AssociationRJServiceProviderASCEReason {
    NoReasonGiven,
    ProtocolVersionNotSupported,
}

/// Rejection reasons available to the service provider (presentation level).
#[derive(Debug, Clone, Copy, PartialEq, Eq, Structural)]
pub enum AssociationRJServiceProviderPresentationReason {
    TemporaryCongestion,
    LocalLimitExceeded,
    Reserved(u8),
}

/// One presentation data value: a fragment of a command or data set bound
/// to a presentation context, with the end-of-message mark.
#[derive(Debug)]
pub struct PDataValue {
    pub presentation_context_id: u8,
    pub value_type: PDataValueType,
    pub is_last: bool,
    pub data: Vec<u8>,
}

/// Whether a PDV carries command set bytes or data set bytes.
#[derive(Debug, Clone, Copy, PartialEq, Eq, Structural)]
pub enum PDataValueType {
    Command,
    Data,
}

/// Who initiated an abort.
#[derive(Debug, Clone, Copy, PartialEq, Eq, Structural)]
pub enum AbortRQSource {
    ServiceUser,
    ServiceProvider(AbortRQServiceProviderReason),
    Reserved,
}

/// The reason a service provider gives when aborting.
#[derive(Debug, Clone, Copy, PartialEq, Eq, Structural)]
pub enum AbortRQServiceProviderReason {
    ReasonNotSpecifiedUnrecognizedPDU,
    UnexpectedPDU,
    Reserved,
    UnrecognizedPDUParameter,
    UnexpectedPDUParameter,
    InvalidPDUParameter,
}

/// One variable item inside an association PDU.
#[derive(Debug)]
pub enum PDUVariableItem {
    Unknown(u8),
    ApplicationContext(Vec<u8>),
    PresentationContextProposed(PresentationContextProposed),
    PresentationContextResult(PresentationContextResult),
    UserVariables(Vec<UserVariableItem>),
}

/// One sub-item of the user information item.
#[derive(Debug)]
pub enum UserVariableItem {
    Unknown(u8),
    MaxLength(u32),
    ImplementationClassUID(Vec<u8>),
    ImplementationVersionName(Vec<u8>),
}

/// A PDU whose type byte this layer does not know; the payload is kept.
#[derive(Debug)]
pub struct UnknownContainer {
    pub pdu_type: u8,
    pub data: Vec<u8>,
}

/// The body of an A-ASSOCIATE-RQ PDU.
#[derive(Debug)]
pub struct AssociateRQContainer {
    pub protocol_version: u16,
    pub calling_ae_title: Vec<u8>,
    pub called_ae_title: Vec<u8>,
    pub application_context_name: Vec<u8>,
    pub presentation_contexts: Vec<PresentationContextProposed>,
    pub user_variables: Vec<UserVariableItem>,
}

/// The body of an A-ASSOCIATE-AC PDU.
#[derive(Debug)]
pub struct AssociateACContainer {
    pub protocol_version: u16,
    pub application_context_name: Vec<u8>,
    pub presentation_contexts: Vec<PresentationContextResult>,
    pub user_variables: Vec<UserVariableItem>,
}

/// The body of an A-ASSOCIATE-RJ PDU.
#[derive(Debug, Clone, Copy, PartialEq, Eq, Structural)]
pub struct AssociateRJContainer {
    pub result: AssociationRJResult,
    pub source: AssociationRJSource,
}

/// The body of a P-DATA-TF PDU: one or more presentation data values.
#[derive(Debug)]
pub struct PDataContainer {
    pub data: Vec<PDataValue>,
}

/// The body of an A-ABORT PDU.
#[derive(Debug, Clone, Copy, PartialEq, Eq, Structural)]
pub struct AbortRQContainer {
    pub source: AbortRQSource,
}

/// A protocol data unit of the upper layer: the eight known kinds, plus
/// `Unknown` for a type byte outside them.
#[derive(Debug)]
pub enum PDU {
    Unknown(UnknownContainer),
    AssociationRQ(AssociateRQContainer),
    AssociationAC(AssociateACContainer),
    AssociationRJ(AssociateRJContainer),
    PData(PDataContainer),
    ReleaseRQ,
    ReleaseRP,
    AbortRQ(AbortRQContainer),
}

/// Mathematical model of a proposed presentation context.
#[verifier::ext_equal]
pub ghost struct PresentationContextProposedView {
    pub id: u8,
    pub abstract_syntax: Seq<u8>,
    pub transfer_syntaxes: Seq<Seq<u8>>,
}

/// Mathematical model of a presentation context result.
#[verifier::ext_equal]
pub ghost struct PresentationContextResultView {
    pub id: u8,
    pub reason: PresentationContextResultReason,
    pub transfer_syntax: Seq<u8>,
}

/// Mathematical model of a user information sub-item.
#[verifier::ext_equal]
pub ghost enum UserVariableItemView {
    Unknown(u8),
    MaxLength(u32),
    ImplementationClassUID(Seq<u8>),
    ImplementationVersionName(Seq<u8>),
}

/// Mathematical model of a presentation data value.
#[verifier::ext_equal]
pub ghost struct PDataValueView {
    pub presentation_context_id: u8,
    pub value_type: PDataValueType,
    pub is_last: bool,
    pub data: Seq<u8>,
}

/// Mathematical model of an unknown PDU.
#[verifier::ext_equal]
pub ghost struct UnknownContainerView {
    pub pdu_type: u8,
    pub data: Seq<u8>,
}

/// Mathematical model of an A-ASSOCIATE-RQ body.
#[verifier::ext_equal]
pub ghost struct AssociateRQContainerView {
    pub protocol_version: u16,
    pub calling_ae_title: Seq<u8>,
    pub called_ae_title: Seq<u8>,
    pub application_context_name: Seq<u8>,
    pub presentation_contexts: Seq<PresentationContextProposedView>,
    pub user_variables: Seq<UserVariableItemView>,
}

/// Mathematical model of an A-ASSOCIATE-AC body.
#[verifier::ext_equal]
pub ghost struct AssociateACContainerView {
    pub protocol_version: u16,
    pub application_context_name: Seq<u8>,
    pub presentation_contexts: Seq<PresentationContextResultView>,
    pub user_variables: Seq<UserVariableItemView>,
}

/// Mathematical model of a P-DATA-TF body.
#[verifier::ext_equal]
pub ghost struct PDataContainerView {
    pub data: Seq<PDataValueView>,
}

/// Mathematical model of a PDU.
#[verifier::ext_equal]
pub ghost enum PDUView {
    Unknown(UnknownContainerView),
    AssociationRQ(AssociateRQContainerView),
    AssociationAC(AssociateACContainerView),
    AssociationRJ(AssociateRJContainer),
    PData(PDataContainerView),
    ReleaseRQ,
    ReleaseRP,
    AbortRQ(AbortRQContainer),
}

impl View for PresentationContextProposed {
    type V = PresentationContextProposedView;

    open spec fn view(&self) -> PresentationContextProposedView {
        PresentationContextProposedView {
            id: self.id,
            abstract_syntax: self.abstract_syntax@,
            transfer_syntaxes: self.transfer_syntaxes.deep_view(),
        }
    }
}

impl DeepView for PresentationContextProposed {
    type V = PresentationContextProposedView;

    open spec fn deep_view(&self) -> PresentationContextProposedView {
        self.view()
    }
}

impl View for PresentationContextResult {
    type V = PresentationContextResultView;

    open spec fn view(&self) -> PresentationContextResultView {
        PresentationContextResultView {
            id: self.id,
            reason: self.reason,
            transfer_syntax: self.transfer_syntax@,
        }
    }
}

impl DeepView for PresentationContextResult {
    type V = PresentationContextResultView;

    open spec fn deep_view(&self) -> PresentationContextResultView {
        self.view()
    }
}

impl View for UserVariableItem {
    type V = UserVariableItemView;

    open spec fn view(&self) -> UserVariableItemView {
        match self {
            UserVariableItem::Unknown(t) => UserVariableItemView::Unknown(*t),
            UserVariableItem::MaxLength(m) => UserVariableItemView::MaxLength(*m),
            UserVariableItem::ImplementationClassUID(u) => UserVariableItemView::ImplementationClassUID(
                u@,
            ),
            UserVariableItem::ImplementationVersionName(n) => UserVariableItemView::ImplementationVersionName(
                n@,
            ),
        }
    }
}

impl DeepView for UserVariableItem {
    type V = UserVariableItemView;

    open spec fn deep_view(&self) -> UserVariableItemView {
        self.view()
    }
}

impl View for PDataValue {
    type V = PDataValueView;

    open spec fn view(&self) -> PDataValueView {
        PDataValueView {
            presentation_context_id: self.presentation_context_id,
            value_type: self.value_type,
            is_last: self.is_last,
            data: self.data@,
        }
    }
}

impl DeepView for PDataValue {
    type V = PDataValueView;

    open spec fn deep_view(&self) -> PDataValueView {
        self.view()
    }
}

impl View for UnknownContainer {
    type V = UnknownContainerView;

    open spec fn view(&self) -> UnknownContainerView {
        UnknownContainerView { pdu_type: self.pdu_type, data: self.data@ }
    }
}

impl View for AssociateRQContainer {
    type V = AssociateRQContainerView;

    open spec fn view(&self) -> AssociateRQContainerView {
        AssociateRQContainerView {
            protocol_version: self.protocol_version,
            calling_ae_title: self.calling_ae_title@,
            called_ae_title: self.called_ae_title@,
            application_context_name: self.application_context_name@,
            presentation_contexts: self.presentation_contexts.deep_view(),
            user_variables: self.user_variables.deep_view(),
        }
    }
}

impl View for AssociateACContainer {
    type V = AssociateACContainerView;

    open spec fn view(&self) -> AssociateACContainerView {
        AssociateACContainerView {
            protocol_version: self.protocol_version,
            application_context_name: self.application_context_name@,
            presentation_contexts: self.presentation_contexts.deep_view(),
            user_variables: self.user_variables.deep_view(),
        }
    }
}

impl View for PDataContainer {
    type V = PDataContainerView;

    open spec fn view(&self) -> PDataContainerView {
        PDataContainerView { data: self.data.deep_view() }
    }
}

impl View for PDU {
    type V = PDUView;

    open spec fn view(&self) -> PDUView {
        match self {
            PDU::Unknown(c) => PDUView::Unknown(c@),
            PDU::AssociationRQ(c) => PDUView::AssociationRQ(c@),
            PDU::AssociationAC(c) => PDUView::AssociationAC(c@),
            PDU::AssociationRJ(c) => PDUView::AssociationRJ(*c),
            PDU::PData(c) => PDUView::PData(c@),
            PDU::ReleaseRQ => PDUView::ReleaseRQ,
            PDU::ReleaseRP => PDUView::ReleaseRP,
            PDU::AbortRQ(c) => PDUView::AbortRQ(*c),
        }
    }
}

/// For a byte vector the deep view and the plain view are one sequence.
pub broadcast proof fn lemma_bytes_deep_view(v: Vec<u8>)
    ensures
        #[trigger] v.deep_view() == v@,
{
    assert(v.deep_view() =~= v@);
}

/// An exact copy of a byte string.
pub fn clone_bytes(v: &Vec<u8>) -> (r: Vec<u8>)
    ensures
        r@ == v@,
{
    let r = v.clone();
    proof {
        assert(r@ =~= v@);
    }
    r
}

/// An exact copy of a list of byte strings.
pub fn clone_byte_list(v: &Vec<Vec<u8>>) -> (r: Vec<Vec<u8>>)
    ensures
        r.deep_view() == v.deep_view(),
{
    let mut r: Vec<Vec<u8>> = Vec::new();
    let mut i: usize = 0;
    while i < v.len()
        invariant
            i <= v.len(),
            r.deep_view().len() == i,
            forall|j: int| 0 <= j < i ==> r.deep_view()[j] == v.deep_view()[j],
        decreases v.len() - i,
    {
        r.push(clone_bytes(&v[i]));
        i += 1;
    }
    proof {
        assert(r.deep_view() =~= v.deep_view());
    }
    r
}

impl Clone for PresentationContextProposed {
    /// An exact copy, field by field.
    fn clone(&self) -> (r: Self)
        ensures
            r@ == self@,
    {
        PresentationContextProposed {
            id: self.id,
            abstract_syntax: clone_bytes(&self.abstract_syntax),
            transfer_syntaxes: clone_byte_list(&self.transfer_syntaxes),
        }
    }
}

impl Clone for PresentationContextResult {
    /// An exact copy, field by field.
    fn clone(&self) -> (r: Self)
        ensures
            r@ == self@,
    {
        PresentationContextResult {
            id: self.id,
            reason: self.reason,
            transfer_syntax: clone_bytes(&self.transfer_syntax),
        }
    }
}

impl Clone for UserVariableItem {
    /// An exact copy of the sub-item.
    fn clone(&self) -> (r: Self)
        ensures
            r@ == self@,
    {
        match self {
            UserVariableItem::Unknown(t) => UserVariableItem::Unknown(*t),
            UserVariableItem::MaxLength(m) => UserVariableItem::MaxLength(*m),
            UserVariableItem::ImplementationClassUID(u) => UserVariableItem::ImplementationClassUID(
                clone_bytes(u),
            ),
            UserVariableItem::ImplementationVersionName(n) => UserVariableItem::ImplementationVersionName(
                clone_bytes(n),
            ),
        }
    }
}

impl Clone for PDataValue {
    /// An exact copy, field by field.
    fn clone(&self) -> (r: Self)
        ensures
            r@ == self@,
    {
        PDataValue {
            presentation_context_id: self.presentation_context_id,
            value_type: self.value_type,
            is_last: self.is_last,
            data: clone_bytes(&self.data),
        }
    }
}

/// An exact copy of a list of proposed presentation contexts.
fn clone_proposed_contexts(v: &Vec<PresentationContextProposed>) -> (r: Vec<
    PresentationContextProposed,
>)
    ensures
        r.deep_view() == v.deep_view(),
{
    let mut r: Vec<PresentationContextProposed> = Vec::new();
    let mut i: usize = 0;
    while i < v.len()
        invariant
            i <= v.len(),
            r.deep_view().len() == i,
            forall|j: int| 0 <= j < i ==> r.deep_view()[j] == v.deep_view()[j],
        decreases v.len() - i,
    {
        r.push(v[i].clone());
        i += 1;
    }
    proof {
        assert(r.deep_view() =~= v.deep_view());
    }
    r
}

/// An exact copy of a list of user information sub-items.
fn clone_user_variables(v: &Vec<UserVariableItem>) -> (r: Vec<UserVariableItem>)
    ensures
        r.deep_view() == v.deep_view(),
{
    let mut r: Vec<UserVariableItem> = Vec::new();
    let mut i: usize = 0;
    while i < v.len()
        invariant
            i <= v.len(),
            r.deep_view().len() == i,
            forall|j: int| 0 <= j < i ==> r.deep_view()[j] == v.deep_view()[j],
        decreases v.len() - i,
    {
        r.push(v[i].clone());
        i += 1;
    }
    proof {
        assert(r.deep_view() =~= v.deep_view());
    }
    r
}

impl Clone for AssociateRQContainer {
    /// An exact copy, field by field.
    fn clone(&self) -> (r: Self)
        ensures
            r@ == self@,
    {
        AssociateRQContainer {
            protocol_version: self.protocol_version,
            calling_ae_title: clone_bytes(&self.calling_ae_title),
            called_ae_title: clone_bytes(&self.called_ae_title),
            application_context_name: clone_bytes(&self.application_context_name),
            presentation_contexts: clone_proposed_contexts(&self.presentation_contexts),
            user_variables: clone_user_variables(&self.user_variables),
        }
    }
}

} // verus!
