use vstd::prelude::*;
use crate::fsm::State;

verus! {

/// Every failure the upper layer can report.
///
/// Transport-level problems (`NoPDUAvailable`, `PDUTooLarge`), protocol
/// violations by the peer (`InvalidPDU`, `InvalidPData`,
/// `InvalidPresentationContextId`, `UnexpectedPdvType`, `BadCommandType`,
/// `InvalidCommandData`, `UnsupportedTransferSyntax`, `DataSetDecoding`),
/// state-machine faults (`InvalidEventForState`, `UnexpectedState`,
/// `InconsistentState`, `NoAction`) and the semantic outcome
/// `PeerAbortedAssociation` are kept apart so that an association can decide
/// whether to abort, close, or surface the condition to its caller.
#[derive(Debug, Clone, Copy, PartialEq, Eq, Structural)]
pub enum Error {
    /// Clean end of stream before any header byte of a PDU was read.
    NoPDUAvailable,
    /// The configured maximum PDU size is unusable.
    InvalidMaxPDU,
    /// A PDU declared a length above the configured maximum.
    PDUTooLarge,
    /// A PDU or one of its items was malformed.
    InvalidPDU,
    /// The association's bookkeeping disagrees with the state machine.
    InconsistentState,
    /// The peer aborted the association.
    PeerAbortedAssociation,
    /// A P-DATA sequence broke the fragmentation rules.
    InvalidPData,
    /// A PDV named a presentation context that was never accepted.
    InvalidPresentationContextId,
    /// A PDV declared a value type other than the one the caller asked for.
    UnexpectedPdvType,
    /// The command set named a command this layer does not handle.
    BadCommandType,
    /// A command set attribute had an unusable value.
    InvalidCommandData,
    /// The negotiated transfer syntax is not in the registry.
    UnsupportedTransferSyntax,
    /// The external data-set decoder rejected the accumulated bytes.
    DataSetDecoding,
    /// The event fed to the state machine has no row for its current state.
    InvalidEventForState(State),
    /// The association found the state machine in a state it cannot continue from.
    UnexpectedState(State),
    /// The transition called for an action this implementation does not provide.
    NoAction,
}

} // verus!
