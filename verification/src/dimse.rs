use vstd::prelude::*;
use crate::error::Error;

verus! {

/// The command field value of a C-ECHO request.
pub const C_ECHO_RQ: u16 = 0x0030;

/// Whether a command message announces an accompanying data set.
#[derive(Debug, Clone, Copy, PartialEq, Eq, Structural)]
pub enum CommandDataSetType {
    Present,
    NoPresent,
}

/// The status of a C-ECHO request.
#[derive(Debug, Clone, Copy, PartialEq, Eq, Structural)]
pub enum EchoStatus {
    /// Success (0000H).
    Success,
    /// Refused: SOP class not supported (0122H).
    Refused,
    /// Duplicate invocation (0210H): the message identifier is already in
    /// use for another operation.
    DuplicateInvocation,
    /// Mistyped argument (0212H): a parameter was not agreed for use on
    /// this association.
    MistypedArgument,
    /// Unrecognized operation (0211H): the SOP class does not know C-ECHO.
    UnrecognizedOperation,
}

impl EchoStatus {
    /// The status a wire value stands for; any other value is
    /// `InvalidCommandData`.
    pub fn from(value: u16) -> (r: Result<EchoStatus, Error>)
        ensures
            value == 0x0000 ==> r == Ok::<EchoStatus, Error>(EchoStatus::Success),
            value == 0x0122 ==> r == Ok::<EchoStatus, Error>(EchoStatus::Refused),
            value == 0x0210 ==> r == Ok::<EchoStatus, Error>(EchoStatus::DuplicateInvocation),
            value == 0x0212 ==> r == Ok::<EchoStatus, Error>(EchoStatus::MistypedArgument),
            value == 0x0211 ==> r == Ok::<EchoStatus, Error>(EchoStatus::UnrecognizedOperation),
            !(value == 0x0000 || value == 0x0122 || value == 0x0210 || value == 0x0212 || value
                == 0x0211) ==> r == Err::<EchoStatus, Error>(Error::InvalidCommandData),
    {
        match value {
            0x0000 => Ok(EchoStatus::Success),
            0x0122 => Ok(EchoStatus::Refused),
            0x0210 => Ok(EchoStatus::DuplicateInvocation),
            0x0212 => Ok(EchoStatus::MistypedArgument),
            0x0211 => Ok(EchoStatus::UnrecognizedOperation),
            _ => Err(Error::InvalidCommandData),
        }
    }
}

/// The attributes of a C-ECHO request's command set.
#[derive(Debug)]
pub struct EchoRqContainer {
    pub message_id: u16,
    pub affected_sop_class_uid: Vec<u8>,
}

/// A decoded DIMSE command this layer knows.
#[derive(Debug)]
pub enum Command {
    EchoRq(EchoRqContainer),
}

/// Build a command from the four command set attributes this layer reads:
/// the command field, the data set type, the message identifier, and the
/// affected SOP class UID. Only C-ECHO requests are known
/// (`BadCommandType` otherwise), and a C-ECHO request may not announce a
/// data set (`InvalidCommandData`).
pub fn command_from_attributes(
    command_field: u16,
    data_set_type_raw: u16,
    message_id: u16,
    affected_sop_class_uid: Vec<u8>,
) -> (r: Result<Command, Error>)
    ensures
        command_field == C_ECHO_RQ && data_set_type_raw != 0x0101 ==> (r matches Ok(c) && (
        c matches Command::EchoRq(e) && e.message_id == message_id
            && e.affected_sop_class_uid@ == affected_sop_class_uid@)),
        command_field == C_ECHO_RQ && data_set_type_raw == 0x0101 ==> r == Err::<Command, Error>(
            Error::InvalidCommandData,
        ),
        command_field != C_ECHO_RQ ==> r == Err::<Command, Error>(Error::BadCommandType),
{
    let command_data_set_type = if data_set_type_raw == 0x0101 {
        CommandDataSetType::Present
    } else {
        CommandDataSetType::NoPresent
    };
    if command_field == C_ECHO_RQ {
        if command_data_set_type != CommandDataSetType::NoPresent {
            return Err(Error::InvalidCommandData);
        }
        Ok(Command::EchoRq(EchoRqContainer { message_id, affected_sop_class_uid }))
    } else {
        Err(Error::BadCommandType)
    }
}

} // verus!
