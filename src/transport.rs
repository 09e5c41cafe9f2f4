use vstd::prelude::*;

use crate::razer_report::{RazerReport, ParseError, REPORT_LEN};

verus! {

/// Status byte of a response to a command the device carried out.
pub const RAZER_CMD_SUCCESSFUL: u8 = 0x02;

/// Status byte of a response to a command the device does not support.
pub const RAZER_CMD_NOT_SUPPORTED: u8 = 0x05;

/// Request type of the write: host to device, class, interface recipient.
pub const SET_REPORT_REQUEST_TYPE: u8 = 0x21;

/// HID "set report" request.
pub const SET_REPORT_REQUEST: u8 = 0x09;

/// Request type of the read: device to host, class, interface recipient.
pub const GET_REPORT_REQUEST_TYPE: u8 = 0xA1;

/// HID "get report" request.
pub const GET_REPORT_REQUEST: u8 = 0x01;

/// Feature report, report id 0.
pub const FEATURE_REPORT_VALUE: u16 = 0x0300;

/// The keyboard's lighting interface.
pub const LIGHTING_INTERFACE: u16 = 0x02;

/// Bound on each control transfer, in seconds.
pub const TRANSFER_TIMEOUT_SECS: u64 = 5;

/// Wait between the write and the read, in microseconds.
pub const SETTLE_DELAY_MICROS: u64 = 600;

/// What came of one command.
#[derive(Debug, Clone, Copy, PartialEq, Eq, Structural)]
pub enum CommandOutcome {
    Success,
    NotSupported,
    CommandFailed,
    ResponseTooShort,
    TransferError,
    ReadError,
    DeviceNotFound,
}

/// What the control channel reported after the last step of an exchange.
pub enum TransferEvent {
    /// The write control transfer failed.
    WriteFailed,
    /// The write control transfer went through.
    WriteCompleted,
    /// The read control transfer failed or timed out.
    ReadFailed,
    /// The read control transfer returned these bytes.
    ReadCompleted(Vec<u8>),
}

/// What the caller does next.
#[derive(Debug, Clone, Copy, PartialEq, Eq, Structural)]
pub enum TransferAction {
    /// Wait the settle delay, then issue the read.
    SettleThenRead,
    /// The exchange is over, with this outcome.
    Finish(CommandOutcome),
}

pub open spec fn outcome_of_status(status: u8) -> CommandOutcome {
    if status == RAZER_CMD_SUCCESSFUL {
        CommandOutcome::Success
    } else if status == RAZER_CMD_NOT_SUPPORTED {
        CommandOutcome::NotSupported
    } else {
        CommandOutcome::CommandFailed
    }
}

pub open spec fn outcome_of_response(response: Seq<u8>) -> CommandOutcome {
    if response.len() < REPORT_LEN {
        CommandOutcome::ResponseTooShort
    } else {
        outcome_of_status(response[0])
    }
}

pub open spec fn action_after(event: TransferEvent) -> TransferAction {
    match event {
        TransferEvent::WriteFailed => TransferAction::Finish(CommandOutcome::TransferError),
        TransferEvent::WriteCompleted => TransferAction::SettleThenRead,
        TransferEvent::ReadFailed => TransferAction::Finish(CommandOutcome::ReadError),
        TransferEvent::ReadCompleted(bytes) => TransferAction::Finish(
            outcome_of_response(bytes@),
        ),
    }
}

/// Maps a response status byte to the outcome of the command.
pub fn status_outcome(status: u8) -> (r: CommandOutcome)
    ensures
        r == outcome_of_status(status),
{
    if status == RAZER_CMD_SUCCESSFUL {
        CommandOutcome::Success
    } else if status == RAZER_CMD_NOT_SUPPORTED {
        CommandOutcome::NotSupported
    } else {
        CommandOutcome::CommandFailed
    }
}

/// Reads a response buffer and maps its status to the outcome of the command.
pub fn response_outcome(response: &[u8]) -> (r: CommandOutcome)
    ensures
        r == outcome_of_response(response@),
        response@.len() < REPORT_LEN ==> r == CommandOutcome::ResponseTooShort,
{
    match RazerReport::from_bytes(response) {
        Ok(parsed) => {
            assert(parsed.wire()[0] == response@[0]);
            status_outcome(parsed.status)
        },
        Err(ParseError::ResponseTooShort) => CommandOutcome::ResponseTooShort,
    }
}

/// Decides the next step of a write-then-read exchange from what the
/// control channel reported. A failed write ends the exchange without a read.
pub fn next_action(event: TransferEvent) -> (a: TransferAction)
    ensures
        a == action_after(event),
{
    match event {
        TransferEvent::WriteFailed => TransferAction::Finish(CommandOutcome::TransferError),
        TransferEvent::WriteCompleted => TransferAction::SettleThenRead,
        TransferEvent::ReadFailed => TransferAction::Finish(CommandOutcome::ReadError),
        TransferEvent::ReadCompleted(bytes) => TransferAction::Finish(
            response_outcome(bytes.as_slice()),
        ),
    }
}

} // verus!
