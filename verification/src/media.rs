//! Media catalog: the tape and label stocks the printer accepts, their
//! geometry, identification codes, and feed-value validation.

use vstd::prelude::*;

use crate::error::ConfigError;

verus! {

/// A tape or label stock, either continuous roll or pre-sized die-cut.
#[derive(Debug, Clone, Copy, PartialEq, Eq, Structural)]
pub enum Media {
    Continuous(ContinuousType),
    DieCut(DieCutType),
}

/// Continuous-roll stocks, by width; the 62mm width exists in a plain and a
/// red-capable (two-color) variety.
#[derive(Debug, Clone, Copy, PartialEq, Eq, Structural)]
pub enum ContinuousType {
    Continuous12,
    Continuous29,
    Continuous38,
    Continuous50,
    Continuous54,
    Continuous62,
    Continuous62Red,
}

/// Die-cut stocks, by width x length in mm; the `Dia` entries are round
/// labels named by their diameter.
#[derive(Debug, Clone, Copy, PartialEq, Eq, Structural)]
pub enum DieCutType {
    DieCut17x54,
    DieCut17x87,
    DieCut23x23,
    DieCut29x42,
    DieCut29x90,
    DieCut38x90,
    DieCut39x48,
    DieCut52x29,
    DieCut54x29,
    DieCut60x86,
    DieCut62x29,
    DieCut62x100,
    DieCut12Dia,
    DieCut24Dia,
    DieCut58Dia,
}

/// The broad family a stock belongs to.
#[derive(Debug, Clone, Copy, PartialEq, Eq, Structural)]
pub enum MediaType {
    Endless,
    DieCut,
}

/// Width geometry of a stock: printable width in mm and the pin offsets
/// (in dots) that position it on the 720-dot head.
#[derive(Debug, Clone, Copy, PartialEq, Eq, Structural)]
pub struct Width {
    pub mm: u8,
    pub left: u32,
    pub effective: u32,
    pub right: u32,
}

/// Length geometry of a stock; zero for continuous rolls.
#[derive(Debug, Clone, Copy, PartialEq, Eq, Structural)]
pub struct Length {
    pub mm: u8,
    pub dots: u32,
}

/// Read-only geometry derived from a [`Media`] variant: identification code,
/// width and length geometry, margin, and the die-cut start offset.
/// Margins and offsets are held in dots.
#[derive(Debug, Clone, Copy, PartialEq, Eq, Structural)]
pub struct MediaSpec {
    pub id: u16,
    pub width: Width,
    pub length: Length,
    pub margin_dots: u32,
    pub offset_dots: Option<u32>,
}

impl MediaSpec {
    /// Printable width in millimetres.
    pub fn width_mm(&self) -> (r: u8)
        ensures
            r == self.width.mm,
    {
        self.width.mm
    }

    /// Label length in millimetres; zero for continuous rolls.
    pub fn length_mm(&self) -> (r: u8)
        ensures
            r == self.length.mm,
    {
        self.length.mm
    }
}

impl Media {
    /// The catalog entry of each stock.  Total over all variants.
    pub open spec fn spec_model(self) -> MediaSpec {
        match self {
            Media::Continuous(t) => match t {
                ContinuousType::Continuous12 => MediaSpec {
                    id: 257,
                    width: Width { mm: 12, left: 585, effective: 106, right: 29 },
                    length: Length { mm: 0, dots: 0 },
                    margin_dots: 18,
                    offset_dots: None,
                },
                ContinuousType::Continuous29 => MediaSpec {
                    id: 258,
                    width: Width { mm: 29, left: 408, effective: 306, right: 6 },
                    length: Length { mm: 0, dots: 0 },
                    margin_dots: 18,
                    offset_dots: None,
                },
                ContinuousType::Continuous38 => MediaSpec {
                    id: 264,
                    width: Width { mm: 38, left: 295, effective: 413, right: 12 },
                    length: Length { mm: 0, dots: 0 },
                    margin_dots: 18,
                    offset_dots: None,
                },
                ContinuousType::Continuous50 => MediaSpec {
                    id: 262,
                    width: Width { mm: 50, left: 154, effective: 554, right: 12 },
                    length: Length { mm: 0, dots: 0 },
                    margin_dots: 18,
                    offset_dots: None,
                },
                ContinuousType::Continuous54 => MediaSpec {
                    id: 261,
                    width: Width { mm: 54, left: 130, effective: 590, right: 0 },
                    length: Length { mm: 0, dots: 0 },
                    margin_dots: 23,
                    offset_dots: None,
                },
                ContinuousType::Continuous62 => MediaSpec {
                    id: 259,
                    width: Width { mm: 62, left: 12, effective: 696, right: 12 },
                    length: Length { mm: 0, dots: 0 },
                    margin_dots: 18,
                    offset_dots: None,
                },
                ContinuousType::Continuous62Red => MediaSpec {
                    id: 259,
                    width: Width { mm: 62, left: 12, effective: 696, right: 12 },
                    length: Length { mm: 0, dots: 0 },
                    margin_dots: 18,
                    offset_dots: None,
                },
            },
            Media::DieCut(t) => match t {
                DieCutType::DieCut17x54 => MediaSpec {
                    id: 269,
                    width: Width { mm: 17, left: 555, effective: 165, right: 0 },
                    length: Length { mm: 54, dots: 636 },
                    margin_dots: 18,
                    offset_dots: Some(35),
                },
                DieCutType::DieCut17x87 => MediaSpec {
                    id: 270,
                    width: Width { mm: 17, left: 555, effective: 165, right: 0 },
                    length: Length { mm: 87, dots: 1026 },
                    margin_dots: 18,
                    offset_dots: Some(35),
                },
                DieCutType::DieCut23x23 => MediaSpec {
                    id: 370,
                    width: Width { mm: 23, left: 442, effective: 236, right: 42 },
                    length: Length { mm: 23, dots: 272 },
                    margin_dots: 18,
                    offset_dots: Some(35),
                },
                DieCutType::DieCut29x42 => MediaSpec {
                    id: 358,
                    width: Width { mm: 29, left: 408, effective: 306, right: 6 },
                    length: Length { mm: 42, dots: 495 },
                    margin_dots: 18,
                    offset_dots: Some(35),
                },
                DieCutType::DieCut29x90 => MediaSpec {
                    id: 271,
                    width: Width { mm: 29, left: 408, effective: 306, right: 6 },
                    length: Length { mm: 90, dots: 1061 },
                    margin_dots: 18,
                    offset_dots: Some(35),
                },
                DieCutType::DieCut38x90 => MediaSpec {
                    id: 272,
                    width: Width { mm: 38, left: 295, effective: 413, right: 12 },
                    length: Length { mm: 90, dots: 1061 },
                    margin_dots: 18,
                    offset_dots: Some(35),
                },
                DieCutType::DieCut39x48 => MediaSpec {
                    id: 367,
                    width: Width { mm: 39, left: 289, effective: 425, right: 6 },
                    length: Length { mm: 48, dots: 565 },
                    margin_dots: 18,
                    offset_dots: Some(35),
                },
                DieCutType::DieCut52x29 => MediaSpec {
                    id: 374,
                    width: Width { mm: 52, left: 142, effective: 578, right: 0 },
                    length: Length { mm: 29, dots: 341 },
                    margin_dots: 18,
                    offset_dots: Some(35),
                },
                DieCutType::DieCut54x29 => MediaSpec {
                    id: 382,
                    width: Width { mm: 54, left: 59, effective: 602, right: 59 },
                    length: Length { mm: 29, dots: 341 },
                    margin_dots: 18,
                    offset_dots: Some(35),
                },
                DieCutType::DieCut60x86 => MediaSpec {
                    id: 383,
                    width: Width { mm: 60, left: 24, effective: 672, right: 24 },
                    length: Length { mm: 86, dots: 1024 },
                    margin_dots: 18,
                    offset_dots: Some(35),
                },
                DieCutType::DieCut62x29 => MediaSpec {
                    id: 274,
                    width: Width { mm: 62, left: 12, effective: 696, right: 12 },
                    length: Length { mm: 29, dots: 341 },
                    margin_dots: 18,
                    offset_dots: Some(35),
                },
                DieCutType::DieCut62x100 => MediaSpec {
                    id: 275,
                    width: Width { mm: 62, left: 12, effective: 696, right: 12 },
                    length: Length { mm: 100, dots: 1179 },
                    margin_dots: 18,
                    offset_dots: Some(35),
                },
                DieCutType::DieCut12Dia => MediaSpec {
                    id: 362,
                    width: Width { mm: 12, left: 513, effective: 94, right: 113 },
                    length: Length { mm: 12, dots: 142 },
                    margin_dots: 24,
                    offset_dots: Some(24),
                },
                DieCutType::DieCut24Dia => MediaSpec {
                    id: 363,
                    width: Width { mm: 24, left: 442, effective: 236, right: 42 },
                    length: Length { mm: 24, dots: 284 },
                    margin_dots: 24,
                    offset_dots: Some(24),
                },
                DieCutType::DieCut58Dia => MediaSpec {
                    id: 273,
                    width: Width { mm: 58, left: 51, effective: 618, right: 51 },
                    length: Length { mm: 58, dots: 686 },
                    margin_dots: 35,
                    offset_dots: Some(35),
                },
            },
        }
    }

    /// Look up the geometry of this stock.  Total: never fails.
    pub fn spec_for(&self) -> (r: MediaSpec)
        ensures
            r == self.spec_model(),
    {
        let m: MediaSpec = match self {
            Media::Continuous(t) => match t {
                ContinuousType::Continuous12 => MediaSpec {
                    id: 257,
                    width: Width { mm: 12, left: 585, effective: 106, right: 29 },
                    length: Length { mm: 0, dots: 0 },
                    margin_dots: 18,
                    offset_dots: None,
                },
                ContinuousType::Continuous29 => MediaSpec {
                    id: 258,
                    width: Width { mm: 29, left: 408, effective: 306, right: 6 },
                    length: Length { mm: 0, dots: 0 },
                    margin_dots: 18,
                    offset_dots: None,
                },
                ContinuousType::Continuous38 => MediaSpec {
                    id: 264,
                    width: Width { mm: 38, left: 295, effective: 413, right: 12 },
                    length: Length { mm: 0, dots: 0 },
                    margin_dots: 18,
                    offset_dots: None,
                },
                ContinuousType::Continuous50 => MediaSpec {
                    id: 262,
                    width: Width { mm: 50, left: 154, effective: 554, right: 12 },
                    length: Length { mm: 0, dots: 0 },
                    margin_dots: 18,
                    offset_dots: None,
                },
                ContinuousType::Continuous54 => MediaSpec {
                    id: 261,
                    width: Width { mm: 54, left: 130, effective: 590, right: 0 },
                    length: Length { mm: 0, dots: 0 },
                    margin_dots: 23,
                    offset_dots: None,
                },
                ContinuousType::Continuous62 => MediaSpec {
                    id: 259,
                    width: Width { mm: 62, left: 12, effective: 696, right: 12 },
                    length: Length { mm: 0, dots: 0 },
                    margin_dots: 18,
                    offset_dots: None,
                },
                ContinuousType::Continuous62Red => MediaSpec {
                    id: 259,
                    width: Width { mm: 62, left: 12, effective: 696, right: 12 },
                    length: Length { mm: 0, dots: 0 },
                    margin_dots: 18,
                    offset_dots: None,
                },
            },
            Media::DieCut(t) => match t {
                DieCutType::DieCut17x54 => MediaSpec {
                    id: 269,
                    width: Width { mm: 17, left: 555, effective: 165, right: 0 },
                    length: Length { mm: 54, dots: 636 },
                    margin_dots: 18,
                    offset_dots: Some(35),
                },
                DieCutType::DieCut17x87 => MediaSpec {
                    id: 270,
                    width: Width { mm: 17, left: 555, effective: 165, right: 0 },
                    length: Length { mm: 87, dots: 1026 },
                    margin_dots: 18,
                    offset_dots: Some(35),
                },
                DieCutType::DieCut23x23 => MediaSpec {
                    id: 370,
                    width: Width { mm: 23, left: 442, effective: 236, right: 42 },
                    length: Length { mm: 23, dots: 272 },
                    margin_dots: 18,
                    offset_dots: Some(35),
                },
                DieCutType::DieCut29x42 => MediaSpec {
                    id: 358,
                    width: Width { mm: 29, left: 408, effective: 306, right: 6 },
                    length: Length { mm: 42, dots: 495 },
                    margin_dots: 18,
                    offset_dots: Some(35),
                },
                DieCutType::DieCut29x90 => MediaSpec {
                    id: 271,
                    width: Width { mm: 29, left: 408, effective: 306, right: 6 },
                    length: Length { mm: 90, dots: 1061 },
                    margin_dots: 18,
                    offset_dots: Some(35),
                },
                DieCutType::DieCut38x90 => MediaSpec {
                    id: 272,
                    width: Width { mm: 38, left: 295, effective: 413, right: 12 },
                    length: Length { mm: 90, dots: 1061 },
                    margin_dots: 18,
                    offset_dots: Some(35),
                },
                DieCutType::DieCut39x48 => MediaSpec {
                    id: 367,
                    width: Width { mm: 39, left: 289, effective: 425, right: 6 },
                    length: Length { mm: 48, dots: 565 },
                    margin_dots: 18,
                    offset_dots: Some(35),
                },
                DieCutType::DieCut52x29 => MediaSpec {
                    id: 374,
                    width: Width { mm: 52, left: 142, effective: 578, right: 0 },
                    length: Length { mm: 29, dots: 341 },
                    margin_dots: 18,
                    offset_dots: Some(35),
                },
                DieCutType::DieCut54x29 => MediaSpec {
                    id: 382,
                    width: Width { mm: 54, left: 59, effective: 602, right: 59 },
                    length: Length { mm: 29, dots: 341 },
                    margin_dots: 18,
                    offset_dots: Some(35),
                },
                DieCutType::DieCut60x86 => MediaSpec {
                    id: 383,
                    width: Width { mm: 60, left: 24, effective: 672, right: 24 },
                    length: Length { mm: 86, dots: 1024 },
                    margin_dots: 18,
                    offset_dots: Some(35),
                },
                DieCutType::DieCut62x29 => MediaSpec {
                    id: 274,
                    width: Width { mm: 62, left: 12, effective: 696, right: 12 },
                    length: Length { mm: 29, dots: 341 },
                    margin_dots: 18,
                    offset_dots: Some(35),
                },
                DieCutType::DieCut62x100 => MediaSpec {
                    id: 275,
                    width: Width { mm: 62, left: 12, effective: 696, right: 12 },
                    length: Length { mm: 100, dots: 1179 },
                    margin_dots: 18,
                    offset_dots: Some(35),
                },
                DieCutType::DieCut12Dia => MediaSpec {
                    id: 362,
                    width: Width { mm: 12, left: 513, effective: 94, right: 113 },
                    length: Length { mm: 12, dots: 142 },
                    margin_dots: 24,
                    offset_dots: Some(24),
                },
                DieCutType::DieCut24Dia => MediaSpec {
                    id: 363,
                    width: Width { mm: 24, left: 442, effective: 236, right: 42 },
                    length: Length { mm: 24, dots: 284 },
                    margin_dots: 24,
                    offset_dots: Some(24),
                },
                DieCutType::DieCut58Dia => MediaSpec {
                    id: 273,
                    width: Width { mm: 58, left: 51, effective: 618, right: 51 },
                    length: Length { mm: 58, dots: 686 },
                    margin_dots: 35,
                    offset_dots: Some(35),
                },
            },
        };
        m
    }

    /// Which stock a numeric identification code names.
    ///
    /// The red-capable 62mm roll shares the code of the plain one, so the
    /// lookup never yields it.
    pub open spec fn from_id_spec(id: u16) -> Option<Media> {
        if id == 257 {
            Some(Media::Continuous(ContinuousType::Continuous12))
        } else if id == 258 {
            Some(Media::Continuous(ContinuousType::Continuous29))
        } else if id == 264 {
            Some(Media::Continuous(ContinuousType::Continuous38))
        } else if id == 262 {
            Some(Media::Continuous(ContinuousType::Continuous50))
        } else if id == 261 {
            Some(Media::Continuous(ContinuousType::Continuous54))
        } else if id == 259 {
            Some(Media::Continuous(ContinuousType::Continuous62))
        } else if id == 269 {
            Some(Media::DieCut(DieCutType::DieCut17x54))
        } else if id == 270 {
            Some(Media::DieCut(DieCutType::DieCut17x87))
        } else if id == 370 {
            Some(Media::DieCut(DieCutType::DieCut23x23))
        } else if id == 358 {
            Some(Media::DieCut(DieCutType::DieCut29x42))
        } else if id == 271 {
            Some(Media::DieCut(DieCutType::DieCut29x90))
        } else if id == 272 {
            Some(Media::DieCut(DieCutType::DieCut38x90))
        } else if id == 367 {
            Some(Media::DieCut(DieCutType::DieCut39x48))
        } else if id == 374 {
            Some(Media::DieCut(DieCutType::DieCut52x29))
        } else if id == 382 {
            Some(Media::DieCut(DieCutType::DieCut54x29))
        } else if id == 383 {
            Some(Media::DieCut(DieCutType::DieCut60x86))
        } else if id == 274 {
            Some(Media::DieCut(DieCutType::DieCut62x29))
        } else if id == 275 {
            Some(Media::DieCut(DieCutType::DieCut62x100))
        } else if id == 362 {
            Some(Media::DieCut(DieCutType::DieCut12Dia))
        } else if id == 363 {
            Some(Media::DieCut(DieCutType::DieCut24Dia))
        } else if id == 273 {
            Some(Media::DieCut(DieCutType::DieCut58Dia))
        } else {
            None
        }
    }

    /// Look a stock up by its numeric identification code.
    pub fn from_id(id: u16) -> (r: Option<Media>)
        ensures
            r == Media::from_id_spec(id),
    {
        match id {
            257 => Some(Self::Continuous(ContinuousType::Continuous12)),
            258 => Some(Self::Continuous(ContinuousType::Continuous29)),
            264 => Some(Self::Continuous(ContinuousType::Continuous38)),
            262 => Some(Self::Continuous(ContinuousType::Continuous50)),
            261 => Some(Self::Continuous(ContinuousType::Continuous54)),
            259 => Some(Self::Continuous(ContinuousType::Continuous62)),
            269 => Some(Self::DieCut(DieCutType::DieCut17x54)),
            270 => Some(Self::DieCut(DieCutType::DieCut17x87)),
            370 => Some(Self::DieCut(DieCutType::DieCut23x23)),
            358 => Some(Self::DieCut(DieCutType::DieCut29x42)),
            271 => Some(Self::DieCut(DieCutType::DieCut29x90)),
            272 => Some(Self::DieCut(DieCutType::DieCut38x90)),
            367 => Some(Self::DieCut(DieCutType::DieCut39x48)),
            374 => Some(Self::DieCut(DieCutType::DieCut52x29)),
            382 => Some(Self::DieCut(DieCutType::DieCut54x29)),
            383 => Some(Self::DieCut(DieCutType::DieCut60x86)),
            274 => Some(Self::DieCut(DieCutType::DieCut62x29)),
            275 => Some(Self::DieCut(DieCutType::DieCut62x100)),
            362 => Some(Self::DieCut(DieCutType::DieCut12Dia)),
            363 => Some(Self::DieCut(DieCutType::DieCut24Dia)),
            273 => Some(Self::DieCut(DieCutType::DieCut58Dia)),
            _ => None,
        }
    }

    /// The feed amount a stock accepts: continuous rolls take 35 to 1500
    /// dots, die-cut labels take exactly zero.
    pub open spec fn feed_ok_spec(self, feed: u16) -> bool {
        match self {
            Media::Continuous(_) => 35 <= feed && feed <= 1500,
            Media::DieCut(_) => feed == 0,
        }
    }

    /// The configuration fault reported when a feed amount is rejected.
    pub open spec fn feed_err_spec(self, feed: u16) -> ConfigError {
        match self {
            Media::Continuous(_) => ConfigError::FeedOutOfRange(feed),
            Media::DieCut(_) => ConfigError::FeedMustBeZero(feed),
        }
    }

    /// The feed amount used when a configuration names none.
    pub open spec fn default_feed_spec(self) -> u16 {
        match self {
            Media::Continuous(_) => 35,
            Media::DieCut(_) => 0,
        }
    }

    /// The default feed amount of this stock.
    pub fn get_default_feed_dots(&self) -> (r: u16)
        ensures
            r == self.default_feed_spec(),
    {
        match self {
            Self::Continuous(_) => 35,
            Self::DieCut(_) => 0,
        }
    }

    /// Validate a feed amount for this stock and encode it little-endian.
    ///
    /// Continuous rolls accept 35 to 1500 dots, boundaries included;
    /// die-cut labels accept only zero.
    pub fn check_feed_value(&self, feed: u16) -> (r: Result<[u8; 2], ConfigError>)
        ensures
            r is Ok <==> self.feed_ok_spec(feed),
            r matches Ok(b) ==> b@ == seq![(feed % 256) as u8, (feed / 256) as u8],
            r matches Err(e) ==> e == self.feed_err_spec(feed),
    {
        match self {
            Self::Continuous(_) => {
                if feed < 35 || feed > 1500 {
                    Err(ConfigError::FeedOutOfRange(feed))
                } else {
                    let lo = (feed % 256) as u8;
                    let hi = (feed / 256) as u8;
                    let b = [lo, hi];
                    proof {
                        assert(b@ == seq![lo, hi]);
                    }
                    Ok(b)
                }
            }
            Self::DieCut(_) => {
                if feed != 0 {
                    Err(ConfigError::FeedMustBeZero(feed))
                } else {
                    let b = [0x00u8, 0x00u8];
                    proof {
                        assert(b@ == seq![0u8, 0u8]);
                    }
                    Ok(b)
                }
            }
        }
    }

    /// The family code a status frame carries for this stock.
    pub open spec fn family_code(self) -> u8 {
        match self {
            Media::Continuous(_) => 0x0A,
            Media::DieCut(_) => 0x0B,
        }
    }

    /// The color-indicator byte a status frame carries for this stock: 0x81
    /// marks the red-capable 62mm roll, plain stocks carry 0x01.
    pub open spec fn color_code(self) -> u8 {
        match self {
            Media::Continuous(ContinuousType::Continuous62Red) => 0x81,
            _ => 0x01,
        }
    }

    /// Append the media part of a mode command: family selector (with the
    /// quality bit), family code, width and length in mm.
    pub fn set_media(&self, buf: &mut Vec<u8>, quality: bool)
        ensures
            final(buf)@ == old(buf)@ + seq![
                ((if self is Continuous { 0x86u8 } else { 0x8Eu8 })
                    + if quality { 0x40u8 } else { 0x00u8 }) as u8,
                self.family_code(),
                self.spec_model().width.mm,
                self.spec_model().length.mm,
            ],
    {
        let quality_bit: u8 = if quality { 0b0100_0000 } else { 0b0000_0000 };
        match self {
            Self::Continuous(_) => {
                buf.push(0x86 + quality_bit);
                buf.push(0x0A);
            }
            Self::DieCut(_) => {
                buf.push(0x8E + quality_bit);
                buf.push(0x0B);
            }
        }
        let info = self.spec_for();
        buf.push(info.width.mm);
        buf.push(info.length.mm);
        proof {
            assert(buf@ =~= old(buf)@ + seq![
                ((if self is Continuous { 0x86u8 } else { 0x8Eu8 })
                    + if quality { 0x40u8 } else { 0x00u8 }) as u8,
                self.family_code(),
                self.spec_model().width.mm,
                self.spec_model().length.mm,
            ]);
        }
    }

    /// Which stock a status frame's media fields identify.
    ///
    /// The family byte selects continuous (0x0A) or die-cut (0x0B); within a
    /// family the width and, for die-cut, the length disambiguate.  The 62mm
    /// continuous roll needs the color byte: 0x01 plain, 0x81 red-capable.
    /// `None` means unknown or uninstalled media.
    pub open spec fn from_status_fields(w: u8, t: u8, l: u8, c: u8) -> Option<Media> {
        if t == 0x0A {
            if w == 12 {
                Some(Media::Continuous(ContinuousType::Continuous12))
            } else if w == 29 {
                Some(Media::Continuous(ContinuousType::Continuous29))
            } else if w == 38 {
                Some(Media::Continuous(ContinuousType::Continuous38))
            } else if w == 50 {
                Some(Media::Continuous(ContinuousType::Continuous50))
            } else if w == 54 {
                Some(Media::Continuous(ContinuousType::Continuous54))
            } else if w == 62 {
                if c == 0x01 {
                    Some(Media::Continuous(ContinuousType::Continuous62))
                } else if c == 0x81 {
                    Some(Media::Continuous(ContinuousType::Continuous62Red))
                } else {
                    None
                }
            } else {
                None
            }
        } else if t == 0x0B {
            if w == 17 && l == 54 {
                Some(Media::DieCut(DieCutType::DieCut17x54))
            } else if w == 17 && l == 87 {
                Some(Media::DieCut(DieCutType::DieCut17x87))
            } else if w == 23 && l == 23 {
                Some(Media::DieCut(DieCutType::DieCut23x23))
            } else if w == 29 && l == 42 {
                Some(Media::DieCut(DieCutType::DieCut29x42))
            } else if w == 29 && l == 90 {
                Some(Media::DieCut(DieCutType::DieCut29x90))
            } else if w == 38 && l == 90 {
                Some(Media::DieCut(DieCutType::DieCut38x90))
            } else if w == 39 && l == 48 {
                Some(Media::DieCut(DieCutType::DieCut39x48))
            } else if w == 52 && l == 29 {
                Some(Media::DieCut(DieCutType::DieCut52x29))
            } else if w == 54 && l == 29 {
                Some(Media::DieCut(DieCutType::DieCut54x29))
            } else if w == 60 && l == 86 {
                Some(Media::DieCut(DieCutType::DieCut60x86))
            } else if w == 62 && l == 29 {
                Some(Media::DieCut(DieCutType::DieCut62x29))
            } else if w == 62 && l == 100 {
                Some(Media::DieCut(DieCutType::DieCut62x100))
            } else if w == 12 && l == 12 {
                Some(Media::DieCut(DieCutType::DieCut12Dia))
            } else if w == 24 && l == 24 {
                Some(Media::DieCut(DieCutType::DieCut24Dia))
            } else if w == 58 && l == 58 {
                Some(Media::DieCut(DieCutType::DieCut58Dia))
            } else {
                None
            }
        } else {
            None
        }
    }

    /// Identify the installed stock from a 32-byte status frame.
    ///
    /// Reads the width (offset 10), family (11), length (17) and color
    /// indicator (25) bytes.  `None` signals unknown or uninstalled media,
    /// which the caller treats as a distinct outcome, not an error.
    pub fn from_buf(buf: [u8; 32]) -> (r: Option<Media>)
        ensures
            r == Media::from_status_fields(buf@[10], buf@[11], buf@[17], buf@[25]),
    {
        let w = buf[10];
        let t = buf[11];
        let l = buf[17];
        let c = buf[25];

        match t {
            0x0A => match w {
                12 => Some(Self::Continuous(ContinuousType::Continuous12)),
                29 => Some(Self::Continuous(ContinuousType::Continuous29)),
                38 => Some(Self::Continuous(ContinuousType::Continuous38)),
                50 => Some(Self::Continuous(ContinuousType::Continuous50)),
                54 => Some(Self::Continuous(ContinuousType::Continuous54)),
                62 => match c {
                    0x01 => Some(Self::Continuous(ContinuousType::Continuous62)),
                    0x81 => Some(Self::Continuous(ContinuousType::Continuous62Red)),
                    _ => None,
                },
                _ => None,
            },
            0x0B => match (w, l) {
                (17, 54) => Some(Self::DieCut(DieCutType::DieCut17x54)),
                (17, 87) => Some(Self::DieCut(DieCutType::DieCut17x87)),
                (23, 23) => Some(Self::DieCut(DieCutType::DieCut23x23)),
                (29, 42) => Some(Self::DieCut(DieCutType::DieCut29x42)),
                (29, 90) => Some(Self::DieCut(DieCutType::DieCut29x90)),
                (38, 90) => Some(Self::DieCut(DieCutType::DieCut38x90)),
                (39, 48) => Some(Self::DieCut(DieCutType::DieCut39x48)),
                (52, 29) => Some(Self::DieCut(DieCutType::DieCut52x29)),
                (54, 29) => Some(Self::DieCut(DieCutType::DieCut54x29)),
                (60, 86) => Some(Self::DieCut(DieCutType::DieCut60x86)),
                (62, 29) => Some(Self::DieCut(DieCutType::DieCut62x29)),
                (62, 100) => Some(Self::DieCut(DieCutType::DieCut62x100)),
                (12, 12) => Some(Self::DieCut(DieCutType::DieCut12Dia)),
                (24, 24) => Some(Self::DieCut(DieCutType::DieCut24Dia)),
                (58, 58) => Some(Self::DieCut(DieCutType::DieCut58Dia)),
                _ => None,
            },
            _ => None,
        }
    }
}

/// Round-trip law: every stock is recovered by [`Media::from_status_fields`]
/// from the very fields its own catalog entry and codes produce: width in
/// mm, family code, length in mm, and color indicator.
pub proof fn lemma_media_round_trip(m: Media)
    ensures
        Media::from_status_fields(
            m.spec_model().width.mm,
            m.family_code(),
            m.spec_model().length.mm,
            m.color_code(),
        ) == Some(m),
{
}

} // verus!
