//! Printer models: identification codes, USB product ids, and head widths.

use vstd::prelude::*;

verus! {

/// A printer model of the QL family.
///
/// `Unknown` carries no code: it stands for any model byte outside the
/// documented set, which the protocol tolerates rather than rejects.
#[derive(Debug, Clone, Copy, PartialEq, Eq, Structural)]
pub enum Model {
    QL500,
    QL550,
    QL560,
    QL570,
    QL580N,
    QL600,
    QL650TD,
    QL700,
    QL710W,
    QL720NW,
    QL800,
    QL810W,
    QL820NWB,
    QL1050,
    QL1060N,
    QL1100,
    QL1110NWB,
    QL1115NWB,
    Unknown,
}

impl Model {
    /// Which model a status frame's model byte names.
    pub open spec fn from_code_spec(code: u8) -> Model {
        if code == 0x47 {
            Model::QL600
        } else if code == 0x37 {
            Model::QL720NW
        } else if code == 0x38 {
            Model::QL800
        } else if code == 0x39 {
            Model::QL810W
        } else if code == 0x41 {
            Model::QL820NWB
        } else if code == 0x43 {
            Model::QL1100
        } else if code == 0x44 {
            Model::QL1110NWB
        } else if code == 0x45 {
            Model::QL1115NWB
        } else {
            Model::Unknown
        }
    }

    /// Decode the model byte of a status frame.  Codes outside the
    /// documented set yield `Unknown` rather than failing.
    pub fn from_code(code: u8) -> (r: Model)
        ensures
            r == Model::from_code_spec(code),
    {
        match code {
            0x47 => Self::QL600,
            0x37 => Self::QL720NW,
            0x38 => Self::QL800,
            0x39 => Self::QL810W,
            0x41 => Self::QL820NWB,
            0x43 => Self::QL1100,
            0x44 => Self::QL1110NWB,
            0x45 => Self::QL1115NWB,
            _ => Self::Unknown,
        }
    }

    /// The USB product id of each model; zero for models this driver has no
    /// id on record for.
    pub open spec fn pid_spec(self) -> u16 {
        match self {
            Model::QL600 => 0x20C0,
            Model::QL720NW => 0x2044,
            Model::QL800 => 0x209b,
            Model::QL810W => 0x209c,
            Model::QL820NWB => 0x209d,
            Model::QL1100 => 0x20A7,
            Model::QL1110NWB => 0x20A8,
            Model::QL1115NWB => 0x20AB,
            _ => 0x0000,
        }
    }

    /// The USB product id used to find the device.
    pub fn pid(&self) -> (r: u16)
        ensures
            r == self.pid_spec(),
    {
        match self {
            Self::QL600 => 0x20C0,
            Self::QL720NW => 0x2044,
            Self::QL800 => 0x209b,
            Self::QL810W => 0x209c,
            Self::QL820NWB => 0x209d,
            Self::QL1100 => 0x20A7,
            Self::QL1110NWB => 0x20A8,
            Self::QL1115NWB => 0x20AB,
            _ => 0x0000,
        }
    }

    /// The print-head width in pixels: 1296 for the wide models, 720 for
    /// the rest.
    pub open spec fn pins_spec(self) -> u32 {
        match self {
            Model::QL1050 => 1296,
            Model::QL1060N => 1296,
            Model::QL1100 => 1296,
            Model::QL1110NWB => 1296,
            Model::QL1115NWB => 1296,
            _ => 720,
        }
    }

    /// The print-head width of this model, in pixels.
    pub fn pins(&self) -> (r: u32)
        ensures
            r == self.pins_spec(),
    {
        match self {
            Self::QL1050 => crate::WIDE_PRINTER_WIDTH,
            Self::QL1060N => crate::WIDE_PRINTER_WIDTH,
            Self::QL1100 => crate::WIDE_PRINTER_WIDTH,
            Self::QL1110NWB => crate::WIDE_PRINTER_WIDTH,
            Self::QL1115NWB => crate::WIDE_PRINTER_WIDTH,
            _ => crate::NORMAL_PRINTER_WIDTH,
        }
    }
}

} // verus!
