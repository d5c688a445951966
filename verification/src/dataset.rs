use vstd::prelude::*;
use crate::asso::{Association, AcceptedContext};
use crate::dimse::{command_from_attributes, Command, C_ECHO_RQ};
use crate::error::Error;
use crate::pdu::PDataValueType;
use crate::reassembly::DataSetAssembly;
use dicom_object::mem::InMemDicomObject;
use dicom_object::StandardDataDictionary;
use dicom_transfer_syntax_registry::{TransferSyntaxIndex, TransferSyntaxRegistry};

verus! {

#[verifier::external_type_specification]
#[verifier::external_body]
pub struct ExStandardDataDictionary(StandardDataDictionary);

#[verifier::external_type_specification]
#[verifier::external_body]
#[verifier::reject_recursive_types(D)]
pub struct ExInMemDicomObject<D>(InMemDicomObject<D>);

/// The decoded object type this layer hands to its callers.
pub type CommandObject = InMemDicomObject<StandardDataDictionary>;

/// Whether the transfer syntax registry knows the UID, read as text.
/// The registry is a table compiled into the program, so this is a
/// function of the bytes alone.
pub uninterp spec fn ts_in_registry(uid: Seq<u8>) -> bool;

/// Whether the external decoder accepts these bytes as a data set under
/// the transfer syntax this UID names. The decoder reads from the bytes
/// alone, with the standard dictionary and the default character set, so
/// this is a function of the two byte strings.
pub uninterp spec fn data_set_decodes(bytes: Seq<u8>, ts_uid: Seq<u8>) -> bool;

/// The object the external decoder yields for these bytes under the
/// transfer syntax this UID names, under the same reading: a function of
/// the two byte strings, meaningful where `data_set_decodes` holds.
pub uninterp spec fn decoded_object(bytes: Seq<u8>, ts_uid: Seq<u8>) -> CommandObject;

/// Relies on `TransferSyntaxRegistry::get` (through `TransferSyntaxIndex`)
/// to look a transfer syntax up by its UID, and on
/// `InMemDicomObject::read_dataset_with_ts` to decode a data set with it.
/// The two calls share one wrapper because the `TransferSyntax` value the
/// lookup hands to the decoder is not a type this crate declares.
/// An unknown or unreadable UID is `UnsupportedTransferSyntax`; bytes the
/// decoder rejects are `DataSetDecoding`.
#[verifier::external_body]
fn decode_data_set_with_registry(bytes: &Vec<u8>, ts_uid: &Vec<u8>) -> (r: Result<CommandObject, Error>)
    ensures
        r is Ok <==> (ts_in_registry(ts_uid@) && data_set_decodes(bytes@, ts_uid@)),
        r matches Ok(o) ==> o == decoded_object(bytes@, ts_uid@),
        r is Err ==> (if ts_in_registry(ts_uid@) { r == Err::<CommandObject, Error>(Error::DataSetDecoding) } else { r == Err::<CommandObject, Error>(Error::UnsupportedTransferSyntax) }),
{
    let uid = match core::str::from_utf8(ts_uid.as_slice()) {
        Ok(u) => u,
        Err(_) => {
            return Err(Error::UnsupportedTransferSyntax);
        },
    };
    let ts = match TransferSyntaxRegistry.get(uid) {
        Some(ts) => ts,
        None => {
            return Err(Error::UnsupportedTransferSyntax);
        },
    };
    InMemDicomObject::read_dataset_with_ts(bytes.as_slice(), ts).map_err(
        |_e| Error::DataSetDecoding,
    )
}

/// The unsigned 16-bit value of the named command set attribute, where
/// the object holds one that converts; the object is a finished value and
/// the dictionary is compiled in, so this is a function of the object and
/// the name.
pub uninterp spec fn element_u16_value(obj: CommandObject, name: Seq<char>) -> Option<u16>;

/// The text of the named command set attribute as its bytes, under the
/// same reading.
pub uninterp spec fn element_text_value(obj: CommandObject, name: Seq<char>) -> Option<Seq<u8>>;

/// Relies on `InMemDicomObject::element_by_name` and `Value::to_int` to
/// read one unsigned 16-bit attribute of the command set; a missing
/// element or an unconvertible value is `InvalidCommandData`.
#[verifier::external_body]
fn element_u16(obj: &CommandObject, name: &str) -> (r: Result<u16, Error>)
    ensures
        r matches Ok(v) ==> element_u16_value(*obj, name@) == Some(v),
        r is Err ==> (r == Err::<u16, Error>(Error::InvalidCommandData) && element_u16_value(*obj, name@) is None),
{
    let element = obj.element_by_name(name).map_err(|_e| Error::InvalidCommandData)?;
    element.value().to_int::<u16>().map_err(|_e| Error::InvalidCommandData)
}

/// Relies on `InMemDicomObject::element_by_name` and `Value::to_str` to
/// read one string attribute of the command set as its bytes; a missing
/// element or an unconvertible value is `InvalidCommandData`.
#[verifier::external_body]
fn element_str_bytes(obj: &CommandObject, name: &str) -> (r: Result<Vec<u8>, Error>)
    ensures
        r matches Ok(v) ==> element_text_value(*obj, name@) == Some(v@),
        r is Err ==> (r == Err::<Vec<u8>, Error>(Error::InvalidCommandData) && element_text_value(*obj, name@) is None),
{
    let element = obj.element_by_name(name).map_err(|_e| Error::InvalidCommandData)?;
    let s = element.value().to_str().map_err(|_e| Error::InvalidCommandData)?;
    Ok(s.into_owned().into_bytes())
}

impl Command {
    /// Read the command set attributes this layer understands out of a
    /// decoded command object and build the command from them. The command
    /// field and data set type decide first: a missing or unconvertible
    /// one is `InvalidCommandData`, a command field other than C-ECHO-RQ
    /// is `BadCommandType`, and a C-ECHO request announcing a data set is
    /// `InvalidCommandData` — all before the message identifier or SOP
    /// class UID is looked at. Only then are those two read (missing or
    /// unconvertible is `InvalidCommandData`) and the echo request built
    /// from them.
    pub fn from_command_data_set(obj: &CommandObject) -> (r: Result<Command, Error>)
        ensures
            (element_u16_value(*obj, "CommandField"@) is None || element_u16_value(
                *obj,
                "CommandDataSetType"@,
            ) is None) ==> r == Err::<Command, Error>(Error::InvalidCommandData),
            (element_u16_value(*obj, "CommandField"@) is Some && element_u16_value(
                *obj,
                "CommandDataSetType"@,
            ) is Some) ==> {
                &&& element_u16_value(*obj, "CommandField"@) != Some(crate::dimse::C_ECHO_RQ)
                    ==> r == Err::<Command, Error>(Error::BadCommandType)
                &&& element_u16_value(*obj, "CommandField"@) == Some(crate::dimse::C_ECHO_RQ)
                    && element_u16_value(*obj, "CommandDataSetType"@) == Some(0x0101u16) ==> r
                    == Err::<Command, Error>(Error::InvalidCommandData)
                &&& element_u16_value(*obj, "CommandField"@) == Some(crate::dimse::C_ECHO_RQ)
                    && element_u16_value(*obj, "CommandDataSetType"@) != Some(0x0101u16) ==> {
                    &&& (element_u16_value(*obj, "MessageID"@) is None || element_text_value(
                        *obj,
                        "AffectedSOPClassUID"@,
                    ) is None) ==> r == Err::<Command, Error>(Error::InvalidCommandData)
                    &&& (element_u16_value(*obj, "MessageID"@) is Some && element_text_value(
                        *obj,
                        "AffectedSOPClassUID"@,
                    ) is Some) ==> (r matches Ok(c) && (c matches Command::EchoRq(e) && Some(
                        e.message_id,
                    ) == element_u16_value(*obj, "MessageID"@) && Some(
                        e.affected_sop_class_uid@,
                    ) == element_text_value(*obj, "AffectedSOPClassUID"@)))
                }
            },
    {
        let command_field = element_u16(obj, "CommandField")?;
        let data_set_type_raw = element_u16(obj, "CommandDataSetType")?;
        if command_field != C_ECHO_RQ {
            return Err(Error::BadCommandType);
        }
        if data_set_type_raw == 0x0101 {
            return Err(Error::InvalidCommandData);
        }
        let message_id = element_u16(obj, "MessageID")?;
        let affected_sop_class_uid = element_str_bytes(obj, "AffectedSOPClassUID")?;
        command_from_attributes(command_field, data_set_type_raw, message_id, affected_sop_class_uid)
    }

    /// Encoding commands is not provided; the command set encoder is an
    /// external collaborator this layer does not drive.
    pub fn to_command_data_set(&self) -> (r: Result<CommandObject, Error>)
        ensures
            r == Err::<CommandObject, Error>(Error::InvalidCommandData),
    {
        Err(Error::InvalidCommandData)
    }
}

/// A complete application message: the accepted context it arrived on,
/// whether it was a command or a data set, and the decoded object.
pub struct PDataDataSet {
    pub presentation_context: AcceptedContext,
    pub value_type: PDataValueType,
    pub data_set: CommandObject,
}

/// A complete command: the accepted context it arrived on and the decoded
/// command.
pub struct AssociationCommand {
    pub presentation_context: AcceptedContext,
    pub command: Command,
}

impl Association {
    /// Close a finished assembly: look the presentation context up, check
    /// the negotiated transfer syntax against the registry, and hand the
    /// accumulated bytes to the external data set decoder.
    pub fn complete_data_set(&self, assembly: DataSetAssembly) -> (r: Result<PDataDataSet, Error>)
        ensures
            !(assembly@.seen_last && assembly@.value_type is Some
                && assembly@.presentation_context_id is Some) ==> (r matches Err(e) && e
                == Error::InvalidPData),
            assembly@.seen_last && assembly@.value_type is Some
                && assembly@.presentation_context_id is Some ==> (match crate::asso::find_accepted(
                self.accepted_contexts.deep_view(),
                assembly@.presentation_context_id.unwrap(),
                0,
            ) {
                Option::None => r == Err::<PDataDataSet, Error>(
                    Error::InvalidPresentationContextId,
                ),
                Option::Some(c) => {
                    &&& !ts_in_registry(c.transfer_syntax) ==> r == Err::<PDataDataSet, Error>(
                        Error::UnsupportedTransferSyntax,
                    )
                    &&& ts_in_registry(c.transfer_syntax) && !data_set_decodes(
                        assembly@.bytes,
                        c.transfer_syntax,
                    ) ==> r == Err::<PDataDataSet, Error>(Error::DataSetDecoding)
                    &&& ts_in_registry(c.transfer_syntax) && data_set_decodes(
                        assembly@.bytes,
                        c.transfer_syntax,
                    ) ==> r is Ok
                },
            }),
            r matches Ok(out) ==> {
                &&& data_set_decodes(assembly@.bytes, out.presentation_context.transfer_syntax@)
                &&& out.data_set == decoded_object(
                    assembly@.bytes,
                    out.presentation_context.transfer_syntax@,
                )
                &&& assembly@.seen_last
                &&& assembly@.value_type == Some(out.value_type)
                &&& assembly@.presentation_context_id == Some(out.presentation_context.id)
                &&& crate::asso::find_accepted(
                    self.accepted_contexts.deep_view(),
                    out.presentation_context.id,
                    0,
                ) == Some(out.presentation_context@)
                &&& ts_in_registry(out.presentation_context.transfer_syntax@)
            },
    {
        let (presentation_context_id, value_type, bytes) = assembly.finish()?;
        proof {
            crate::asso::lemma_find_accepted_id(
                self.accepted_contexts.deep_view(),
                presentation_context_id,
                0,
            );
        }
        let presentation_context = self.accepted_context_for(presentation_context_id)?;
        let data_set = decode_data_set_with_registry(&bytes, &presentation_context.transfer_syntax)?;
        Ok(PDataDataSet { presentation_context, value_type, data_set })
    }
}

} // verus!
