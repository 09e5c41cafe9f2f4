use razer_rgb_mac::device::is_supported_device;
use razer_rgb_mac::razer_report::RazerReport;
use razer_rgb_mac::transport::{
    next_action, response_outcome, status_outcome, CommandOutcome, TransferAction, TransferEvent,
};

fn response_with_status(status: u8) -> Vec<u8> {
    let mut buf = vec![0u8; 90];
    buf[0] = status;
    buf
}

#[test]
fn status_success_maps_to_success() {
    assert_eq!(response_outcome(&response_with_status(0x02)), CommandOutcome::Success);
    assert_eq!(status_outcome(0x02), CommandOutcome::Success);
}

#[test]
fn status_not_supported_maps_to_not_supported() {
    assert_eq!(response_outcome(&response_with_status(0x05)), CommandOutcome::NotSupported);
    assert_eq!(status_outcome(0x05), CommandOutcome::NotSupported);
}

#[test]
fn other_statuses_map_to_command_failed() {
    for status in [0x00u8, 0x01, 0x03, 0x04, 0x06, 0xFF] {
        assert_eq!(response_outcome(&response_with_status(status)), CommandOutcome::CommandFailed);
        assert_eq!(status_outcome(status), CommandOutcome::CommandFailed);
    }
}

#[test]
fn short_response_is_too_short_whatever_its_content() {
    assert_eq!(response_outcome(&[]), CommandOutcome::ResponseTooShort);
    assert_eq!(response_outcome(&[0x02u8; 89]), CommandOutcome::ResponseTooShort);
    assert_eq!(response_outcome(&[0x05u8; 10]), CommandOutcome::ResponseTooShort);
}

#[test]
fn response_built_from_report_bytes() {
    let mut reply = RazerReport::spectrum();
    reply.status = 0x02;
    assert_eq!(response_outcome(&reply.to_bytes()), CommandOutcome::Success);
}

#[test]
fn failed_write_ends_without_read() {
    assert_eq!(
        next_action(TransferEvent::WriteFailed),
        TransferAction::Finish(CommandOutcome::TransferError)
    );
}

#[test]
fn completed_write_waits_then_reads() {
    assert_eq!(next_action(TransferEvent::WriteCompleted), TransferAction::SettleThenRead);
}

#[test]
fn failed_read_is_read_error() {
    assert_eq!(
        next_action(TransferEvent::ReadFailed),
        TransferAction::Finish(CommandOutcome::ReadError)
    );
}

#[test]
fn completed_read_maps_status() {
    assert_eq!(
        next_action(TransferEvent::ReadCompleted(response_with_status(0x02))),
        TransferAction::Finish(CommandOutcome::Success)
    );
    assert_eq!(
        next_action(TransferEvent::ReadCompleted(response_with_status(0x05))),
        TransferAction::Finish(CommandOutcome::NotSupported)
    );
    assert_eq!(
        next_action(TransferEvent::ReadCompleted(vec![0x02u8; 40])),
        TransferAction::Finish(CommandOutcome::ResponseTooShort)
    );
}

#[test]
fn only_the_ornata_v3_is_supported() {
    assert!(is_supported_device(0x1532, 0x02A1));
    assert!(!is_supported_device(0x1532, 0x02A2));
    assert!(!is_supported_device(0x046D, 0x02A1));
}
