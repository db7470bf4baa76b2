//! Error conditions: hardware faults decoded from status frames, and the
//! driver-level error type returned by the engine's operations.

use vstd::prelude::*;

use crate::media::Media;
use crate::status::Phase;

verus! {

/// Driver-level error type for printer operations, from transport faults
/// surfaced by the caller to configuration and hardware faults detected by
/// the engine itself.
#[derive(Debug, Clone, Copy, PartialEq, Eq, Structural)]
pub enum Error {
    /// The device was not found or failed to respond.
    DeviceOffline,
    /// The device list could not be read, usually a permission issue.
    DeviceListNotReadable,
    /// The device exposes no bulk endpoint in the needed direction.
    MissingEndpoint,
    /// A write moved fewer bytes than supplied; carries the count written.
    InvalidResponse(usize),
    /// A configuration parameter was rejected before any byte was sent.
    InvalidConfig(ConfigError),
    /// The status frame identified no installed media.
    NoMediaInstalled,
    /// The installed media differs from the configured one.
    MediaMismatch { expected: Media, actual: Media },
    /// No well-formed status frame arrived within the retry budget.
    ReadStatusTimeout,
    /// The print job did not reach completion within the attempt budget.
    PrintTimeout,
    /// The device reported a phase the engine did not expect here.
    UnexpectedPhase(Phase),
    /// A hardware fault reported by the device itself.
    PrinterError(PrinterError),
}

/// Hardware fault states reported by the printer.
///
/// Decoded from the two error bytes of a 32-byte status frame.
/// `UnknownError(0, 0)` is the canonical "no error" value.
#[derive(Debug, Clone, Copy, PartialEq, Eq, Structural)]
pub enum PrinterError {
    NoMedia,
    EndOfMedia,
    CutterJam,
    PrinterInUse,
    PrinterOffline,
    InvalidMedia,
    BufferFull,
    CommunicationError,
    CoverOpen,
    FeedMediaFail,
    SystemError,
    UnknownError(u8, u8),
}

impl PrinterError {
    /// What the two error bytes decode to.
    ///
    /// The first byte is checked against its flag set first; only if none
    /// matches is the second byte consulted.  Exactly one flag per byte is
    /// honored; anything else is carried as `UnknownError`.
    pub open spec fn decode_spec(err1: u8, err2: u8) -> PrinterError {
        if err1 == 0x01 {
            PrinterError::NoMedia
        } else if err1 == 0x02 {
            PrinterError::EndOfMedia
        } else if err1 == 0x04 {
            PrinterError::CutterJam
        } else if err1 == 0x10 {
            PrinterError::PrinterInUse
        } else if err1 == 0x20 {
            PrinterError::PrinterOffline
        } else if err2 == 0x01 {
            PrinterError::InvalidMedia
        } else if err2 == 0x02 {
            PrinterError::BufferFull
        } else if err2 == 0x04 {
            PrinterError::CommunicationError
        } else if err2 == 0x10 {
            PrinterError::CoverOpen
        } else if err2 == 0x40 {
            PrinterError::FeedMediaFail
        } else if err2 == 0x80 {
            PrinterError::SystemError
        } else {
            PrinterError::UnknownError(err1, err2)
        }
    }

    /// Decode the two raw error bytes of a status frame.
    pub fn from_codes(err1: u8, err2: u8) -> (r: PrinterError)
        ensures
            r == PrinterError::decode_spec(err1, err2),
    {
        match err1 {
            0b0000_0001 => Self::NoMedia,
            0b0000_0010 => Self::EndOfMedia,
            0b0000_0100 => Self::CutterJam,
            0b0001_0000 => Self::PrinterInUse,
            0b0010_0000 => Self::PrinterOffline,
            _ => match err2 {
                0b0000_0001 => Self::InvalidMedia,
                0b0000_0010 => Self::BufferFull,
                0b0000_0100 => Self::CommunicationError,
                0b0001_0000 => Self::CoverOpen,
                0b0100_0000 => Self::FeedMediaFail,
                0b1000_0000 => Self::SystemError,
                _ => Self::UnknownError(err1, err2),
            },
        }
    }

    /// Parse the printer error from a 32-byte status frame.
    ///
    /// The error bytes sit at offsets 8 and 9 of the frame.
    pub fn from_buf(buf: [u8; 32]) -> (r: PrinterError)
        ensures
            r == PrinterError::decode_spec(buf@[8], buf@[9]),
    {
        let err_1 = buf[8];
        let err_2 = buf[9];
        Self::from_codes(err_1, err_2)
    }

    /// Whether this value is the "no error" state.
    pub open spec fn is_no_error_spec(self) -> bool {
        self == PrinterError::UnknownError(0u8, 0u8)
    }

    /// Check if this represents the "no error" state, as opposed to a
    /// recognized fault or an unrecognized nonzero code.
    pub fn is_no_error(&self) -> (r: bool)
        ensures
            r == self.is_no_error_spec(),
    {
        match self {
            Self::UnknownError(a, b) => *a == 0 && *b == 0,
            _ => false,
        }
    }
}

/// A configuration fault: a parameter the catalog rejects before any byte
/// is sent to the device.
#[derive(Debug, Clone, Copy, PartialEq, Eq, Structural)]
pub enum ConfigError {
    /// A continuous stock needs a feed amount between 35 and 1500 dots.
    FeedOutOfRange(u16),
    /// A die-cut stock takes no feed adjustment: the amount must be zero.
    FeedMustBeZero(u16),
}

/// The two error bytes `(0, 0)` decode to the canonical clear state.
pub proof fn lemma_decode_zero_is_clear()
    ensures
        PrinterError::decode_spec(0, 0).is_no_error_spec(),
{
}

/// Whenever the first error byte holds the no-media flag alone, the decoded
/// condition is `NoMedia`, whatever the second byte holds.
pub proof fn lemma_no_media_dominates(err2: u8)
    ensures
        PrinterError::decode_spec(0x01, err2) == PrinterError::NoMedia,
{
}

} // verus!
