use ql_label::error::Error;
use ql_label::status::{Notification, StatusType};
use ql_label::{ContinuousType, DieCutType, Media, Model, Phase, PrinterError, Status};

fn base_frame() -> [u8; 32] {
    let mut buf = [0u8; 32];
    buf[4] = 0x38; // QL800
    buf[10] = 62;
    buf[11] = 0x0A;
    buf[25] = 0x01; // plain 62mm continuous
    buf
}

#[test]
fn test_error_decode_clear() {
    let e = PrinterError::from_codes(0, 0);
    assert_eq!(e, PrinterError::UnknownError(0, 0));
    assert!(e.is_no_error());
}

#[test]
fn test_error_decode_no_media_dominates() {
    for x in [0u8, 1, 2, 0x10, 0x40, 0x80, 0xFF] {
        assert_eq!(PrinterError::from_codes(0b0000_0001, x), PrinterError::NoMedia);
    }
}

#[test]
fn test_error_decode_variants() {
    assert_eq!(PrinterError::from_codes(0x02, 0), PrinterError::EndOfMedia);
    assert_eq!(PrinterError::from_codes(0x04, 0), PrinterError::CutterJam);
    assert_eq!(PrinterError::from_codes(0x10, 0), PrinterError::PrinterInUse);
    assert_eq!(PrinterError::from_codes(0x20, 0), PrinterError::PrinterOffline);
    assert_eq!(PrinterError::from_codes(0, 0x01), PrinterError::InvalidMedia);
    assert_eq!(PrinterError::from_codes(0, 0x02), PrinterError::BufferFull);
    assert_eq!(
        PrinterError::from_codes(0, 0x04),
        PrinterError::CommunicationError
    );
    assert_eq!(PrinterError::from_codes(0, 0x10), PrinterError::CoverOpen);
    assert_eq!(PrinterError::from_codes(0, 0x40), PrinterError::FeedMediaFail);
    assert_eq!(PrinterError::from_codes(0, 0x80), PrinterError::SystemError);
    let unknown = PrinterError::from_codes(0x40, 0x20);
    assert_eq!(unknown, PrinterError::UnknownError(0x40, 0x20));
    assert!(!unknown.is_no_error());
}

#[test]
fn test_error_from_buf_offsets() {
    let mut buf = [0u8; 32];
    buf[8] = 0x04;
    assert_eq!(PrinterError::from_buf(buf), PrinterError::CutterJam);
    buf[8] = 0;
    buf[9] = 0x10;
    assert_eq!(PrinterError::from_buf(buf), PrinterError::CoverOpen);
}

#[test]
fn test_status_decode_fields() {
    let mut buf = base_frame();
    buf[14] = 7; // sequence id
    buf[15] = 0x42; // raw mode
    buf[18] = 0x06; // phase change
    buf[19] = 0x01; // printing
    buf[22] = 0x03; // cooling started
    let status = Status::from_buf(buf);
    assert_eq!(status.model, Model::QL800);
    assert!(status.error.is_no_error());
    assert_eq!(
        status.media,
        Some(Media::Continuous(ContinuousType::Continuous62))
    );
    assert_eq!(status.mode, 0x42);
    assert_eq!(status.status_type, StatusType::PhaseChange);
    assert_eq!(status.phase, Phase::Printing);
    assert_eq!(status.notification, Notification::CoolingStarted);
    assert_eq!(status.id, 7);
}

#[test]
fn test_status_decode_unknown_codes() {
    let mut buf = base_frame();
    buf[4] = 0xEE;
    buf[18] = 0x7F;
    buf[19] = 0x55;
    buf[22] = 0x55;
    let status = Status::from_buf(buf);
    assert_eq!(status.model, Model::Unknown);
    assert_eq!(status.status_type, StatusType::Unknown);
    assert_eq!(status.phase, Phase::Waiting(0));
    assert_eq!(status.notification, Notification::NotAvailable);
}

#[test]
fn test_check_media_match() {
    let status = Status::from_buf(base_frame());
    assert_eq!(
        status.check_media(Media::Continuous(ContinuousType::Continuous62)),
        Ok(())
    );
}

#[test]
fn test_check_media_mismatch() {
    // configured die-cut 62x29, installed continuous 62: the mismatch
    // carries both stocks and the job must not start
    let status = Status::from_buf(base_frame());
    let expected = Media::DieCut(DieCutType::DieCut62x29);
    assert_eq!(
        status.check_media(expected),
        Err(Error::MediaMismatch {
            expected: Media::DieCut(DieCutType::DieCut62x29),
            actual: Media::Continuous(ContinuousType::Continuous62),
        })
    );
}

#[test]
fn test_check_media_none_installed() {
    let mut buf = base_frame();
    buf[10] = 0;
    buf[11] = 0;
    let status = Status::from_buf(buf);
    assert_eq!(status.media, None);
    assert_eq!(
        status.check_media(Media::Continuous(ContinuousType::Continuous62)),
        Err(Error::NoMediaInstalled)
    );
}
