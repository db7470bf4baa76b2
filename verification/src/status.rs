//! Status decoding: the fixed 32-byte status frame the printer sends, parsed
//! into model, error, media, phase, status-type and notification fields.

use vstd::prelude::*;

use crate::error::{Error, PrinterError};
use crate::media::Media;
use crate::model::Model;

verus! {

/// Why the printer sent a status frame.
///
/// Codes outside the documented set decode to `Unknown`: the device firmware
/// may emit codes this driver has never seen, and must not be rejected.
#[derive(Debug, Clone, Copy, PartialEq, Eq, Structural)]
pub enum StatusType {
    ReplyToRequest,
    Completed,
    Error,
    Offline,
    Notification,
    PhaseChange,
    Unknown,
}

impl StatusType {
    /// Which status type a frame's type byte names.
    pub open spec fn from_code_spec(code: u8) -> StatusType {
        if code == 0x00 {
            StatusType::ReplyToRequest
        } else if code == 0x01 {
            StatusType::Completed
        } else if code == 0x02 {
            StatusType::Error
        } else if code == 0x04 {
            StatusType::Offline
        } else if code == 0x05 {
            StatusType::Notification
        } else if code == 0x06 {
            StatusType::PhaseChange
        } else {
            StatusType::Unknown
        }
    }

    /// Decode the status-type byte of a frame.
    pub fn from_code(code: u8) -> (r: StatusType)
        ensures
            r == StatusType::from_code_spec(code),
    {
        match code {
            0x00 => Self::ReplyToRequest,
            0x01 => Self::Completed,
            0x02 => Self::Error,
            0x04 => Self::Offline,
            0x05 => Self::Notification,
            0x06 => Self::PhaseChange,
            _ => Self::Unknown,
        }
    }
}

/// The device's reported phase: accepting raster data, physically printing,
/// or waiting with a reason code.
#[derive(Debug, Clone, Copy, PartialEq, Eq, Structural)]
pub enum Phase {
    Receiving,
    Printing,
    Waiting(u16),
}

impl Phase {
    /// Which phase a frame's phase byte names; unrecognized codes decode to
    /// `Waiting(0)`.
    pub open spec fn from_code_spec(code: u8) -> Phase {
        if code == 0x00 {
            Phase::Receiving
        } else if code == 0x01 {
            Phase::Printing
        } else {
            Phase::Waiting(0)
        }
    }

    /// Decode the phase byte (offset 19) of a 32-byte status frame.
    pub fn from_buf(buf: [u8; 32]) -> (r: Phase)
        ensures
            r == Phase::from_code_spec(buf@[19]),
    {
        match buf[19] {
            0x00 => Self::Receiving,
            0x01 => Self::Printing,
            _ => Self::Waiting(0),
        }
    }
}

/// An out-of-band notification the device volunteers, such as the thermal
/// head starting or finishing a cooling pause.
#[derive(Debug, Clone, Copy, PartialEq, Eq, Structural)]
pub enum Notification {
    NotAvailable,
    CoolingStarted,
    CoolingFinished,
}

impl Notification {
    /// Which notification a frame's notification byte names.
    pub open spec fn from_code_spec(code: u8) -> Notification {
        if code == 0x03 {
            Notification::CoolingStarted
        } else if code == 0x04 {
            Notification::CoolingFinished
        } else {
            Notification::NotAvailable
        }
    }

    /// Decode the notification byte of a frame.
    pub fn from_code(code: u8) -> (r: Notification)
        ensures
            r == Notification::from_code_spec(code),
    {
        match code {
            0x03 => Self::CoolingStarted,
            0x04 => Self::CoolingFinished,
            _ => Self::NotAvailable,
        }
    }
}

/// One decoded status snapshot.
///
/// Constructed fresh from each 32-byte frame and never mutated; `media` is
/// `None` when the installed stock is unrecognized or absent.
#[derive(Debug, Clone, Copy, PartialEq, Eq, Structural)]
pub struct Status {
    pub model: Model,
    pub error: PrinterError,
    pub media: Option<Media>,
    pub mode: u8,
    pub status_type: StatusType,
    pub phase: Phase,
    pub notification: Notification,
    pub id: u8,
}

impl Status {
    /// What a whole 32-byte frame decodes to, field by field.
    pub open spec fn from_buf_spec(buf: Seq<u8>) -> Status {
        Status {
            model: Model::from_code_spec(buf[4]),
            error: PrinterError::decode_spec(buf[8], buf[9]),
            media: Media::from_status_fields(buf[10], buf[11], buf[17], buf[25]),
            mode: buf[15],
            status_type: StatusType::from_code_spec(buf[18]),
            phase: Phase::from_code_spec(buf[19]),
            notification: Notification::from_code_spec(buf[22]),
            id: buf[14],
        }
    }

    /// Decode one 32-byte status frame.  Pure and total: unknown codes land
    /// in the explicit `Unknown` variants of each field.
    pub fn from_buf(buf: [u8; 32]) -> (r: Status)
        ensures
            r == Status::from_buf_spec(buf@),
    {
        Status {
            model: Model::from_code(buf[4]),
            error: PrinterError::from_buf(buf),
            media: Media::from_buf(buf),
            mode: buf[15],
            status_type: StatusType::from_code(buf[18]),
            phase: Phase::from_buf(buf),
            notification: Notification::from_code(buf[22]),
            id: buf[14],
        }
    }

    /// What checking the installed media against the configured one yields:
    /// success only on an exact match, `NoMediaInstalled` when the frame
    /// identified none, `MediaMismatch` otherwise.
    pub open spec fn check_media_spec(self, expected_media: Media) -> Result<(), Error> {
        match self.media {
            Some(actual_media) => if actual_media == expected_media {
                Ok(())
            } else {
                Err(Error::MediaMismatch { expected: expected_media, actual: actual_media })
            },
            None => Err(Error::NoMediaInstalled),
        }
    }

    /// Compare the media this status identified against the configured one.
    pub fn check_media(self, expected_media: Media) -> (r: Result<(), Error>)
        ensures
            r == self.check_media_spec(expected_media),
            r is Ok <==> self.media == Some(expected_media),
    {
        match self.media {
            Some(actual_media) => {
                if actual_media == expected_media {
                    Ok(())
                } else {
                    Err(Error::MediaMismatch { expected: expected_media, actual: actual_media })
                }
            }
            None => Err(Error::NoMediaInstalled),
        }
    }
}

} // verus!
