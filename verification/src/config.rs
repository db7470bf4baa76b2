//! Print job configuration: immutable parameters built once before a
//! session, and the mode-command bytes they encode to.

use vstd::prelude::*;

use crate::error::{ConfigError, Error};
use crate::media::Media;
use crate::model::Model;

verus! {

/// The auto-cut policy: disabled, or enabled with a cut-every-N count.
#[derive(Debug, Clone, Copy, PartialEq, Eq, Structural)]
pub enum AutoCut {
    Enabled(u8),
    Disabled,
}

/// The bit the various-mode command carries for an auto-cut policy.
pub open spec fn auto_cut_bit(ac: AutoCut) -> u8 {
    match ac {
        AutoCut::Enabled(_) => 0x40,
        AutoCut::Disabled => 0x00,
    }
}

/// The count the auto-cut-number command carries: the configured N when
/// cutting is enabled, 1 otherwise.
pub open spec fn auto_cut_num(ac: AutoCut) -> u8 {
    match ac {
        AutoCut::Enabled(n) => n,
        AutoCut::Disabled => 1,
    }
}

/// Immutable print job parameters.
///
/// Built once before a print session through the chained `with`-style
/// setters, each of which consumes the old value and returns a new one.
#[derive(Debug, Clone)]
pub struct Config {
    pub model: Model,
    pub serial: String,
    pub media: Media,
    pub auto_cut: AutoCut,
    pub two_colors: bool,
    pub cut_at_end: bool,
    pub high_resolution: bool,
    pub feed: u16,
    pub compress: bool,
}

/// The expanded-mode byte a configuration encodes to: bit 0 two-color,
/// bit 3 cut-at-end, bit 6 high-resolution.
pub open spec fn expanded_mode(c: Config) -> u8 {
    ((if c.two_colors { 0x01u8 } else { 0x00u8 })
        + (if c.cut_at_end { 0x08u8 } else { 0x00u8 })
        + (if c.high_resolution { 0x40u8 } else { 0x00u8 })) as u8
}

/// The mode-command bytes a configuration encodes to, in order: feed amount
/// (little-endian), various mode (auto-cut bit), auto-cut count, expanded
/// mode.
pub open spec fn mode_commands(c: Config) -> Seq<u8> {
    seq![0x1Bu8, 0x69u8, 0x64u8, (c.feed % 256) as u8, (c.feed / 256) as u8]
        + seq![0x1Bu8, 0x69u8, 0x4Du8, auto_cut_bit(c.auto_cut)]
        + seq![0x1Bu8, 0x69u8, 0x41u8, auto_cut_num(c.auto_cut)]
        + seq![0x1Bu8, 0x69u8, 0x4Bu8, expanded_mode(c)]
}

impl Config {
    /// Initialize a configuration with default values: auto-cut every
    /// label, cut at end, single color, normal resolution, no compression,
    /// and the media's default feed amount.
    pub fn new(model: Model, serial: String, media: Media) -> (r: Config)
        ensures
            r.model == model,
            r.serial@ == serial@,
            r.media == media,
            r.auto_cut == AutoCut::Enabled(1),
            r.two_colors == false,
            r.cut_at_end == true,
            r.high_resolution == false,
            r.feed == media.default_feed_spec(),
            r.compress == false,
    {
        let feed = media.get_default_feed_dots();
        Config {
            model,
            serial,
            media,
            auto_cut: AutoCut::Enabled(1),
            two_colors: false,
            cut_at_end: true,
            high_resolution: false,
            feed,
            compress: false,
        }
    }

    /// Enable auto-cut after every `size` labels.
    pub fn enable_auto_cut(self, size: u8) -> (r: Config)
        ensures
            r.auto_cut == AutoCut::Enabled(size),
            r.model == self.model,
            r.serial@ == self.serial@,
            r.media == self.media,
            r.two_colors == self.two_colors,
            r.cut_at_end == self.cut_at_end,
            r.high_resolution == self.high_resolution,
            r.feed == self.feed,
            r.compress == self.compress,
    {
        Config { auto_cut: AutoCut::Enabled(size), ..self }
    }

    /// Disable auto-cutting.
    pub fn disable_auto_cut(self) -> (r: Config)
        ensures
            r.auto_cut == AutoCut::Disabled,
            r.model == self.model,
            r.serial@ == self.serial@,
            r.media == self.media,
            r.two_colors == self.two_colors,
            r.cut_at_end == self.cut_at_end,
            r.high_resolution == self.high_resolution,
            r.feed == self.feed,
            r.compress == self.compress,
    {
        Config { auto_cut: AutoCut::Disabled, ..self }
    }

    /// Choose whether the tape is cut after the last label.
    pub fn cut_at_end(self, flag: bool) -> (r: Config)
        ensures
            r.cut_at_end == flag,
            r.model == self.model,
            r.serial@ == self.serial@,
            r.media == self.media,
            r.auto_cut == self.auto_cut,
            r.two_colors == self.two_colors,
            r.high_resolution == self.high_resolution,
            r.feed == self.feed,
            r.compress == self.compress,
    {
        Config { cut_at_end: flag, ..self }
    }

    /// Choose high-resolution printing.
    pub fn high_resolution(self, high: bool) -> (r: Config)
        ensures
            r.high_resolution == high,
            r.model == self.model,
            r.serial@ == self.serial@,
            r.media == self.media,
            r.auto_cut == self.auto_cut,
            r.two_colors == self.two_colors,
            r.cut_at_end == self.cut_at_end,
            r.feed == self.feed,
            r.compress == self.compress,
    {
        Config { high_resolution: high, ..self }
    }

    /// Set the feed amount in dots.
    pub fn set_feed_in_dots(self, feed: u16) -> (r: Config)
        ensures
            r.feed == feed,
            r.model == self.model,
            r.serial@ == self.serial@,
            r.media == self.media,
            r.auto_cut == self.auto_cut,
            r.two_colors == self.two_colors,
            r.cut_at_end == self.cut_at_end,
            r.high_resolution == self.high_resolution,
            r.compress == self.compress,
    {
        Config { feed, ..self }
    }

    /// Choose two-color (black and red) printing.
    pub fn two_colors(self, two_colors: bool) -> (r: Config)
        ensures
            r.two_colors == two_colors,
            r.model == self.model,
            r.serial@ == self.serial@,
            r.media == self.media,
            r.auto_cut == self.auto_cut,
            r.cut_at_end == self.cut_at_end,
            r.high_resolution == self.high_resolution,
            r.feed == self.feed,
            r.compress == self.compress,
    {
        Config { two_colors, ..self }
    }

    /// Choose run-length compression of raster rows.
    pub fn compress(self, flag: bool) -> (r: Config)
        ensures
            r.compress == flag,
            r.model == self.model,
            r.serial@ == self.serial@,
            r.media == self.media,
            r.auto_cut == self.auto_cut,
            r.two_colors == self.two_colors,
            r.cut_at_end == self.cut_at_end,
            r.high_resolution == self.high_resolution,
            r.feed == self.feed,
    {
        Config { compress: flag, ..self }
    }

    /// Encode the mode commands this configuration calls for: feed amount,
    /// various mode with the auto-cut bit, auto-cut count, and expanded
    /// mode.  Rejects a feed amount the selected media does not allow.
    pub fn build(&self) -> (r: Result<Vec<u8>, Error>)
        ensures
            r is Ok <==> self.media.feed_ok_spec(self.feed),
            r matches Ok(buf) ==> buf@ == mode_commands(*self),
            r matches Err(e) ==> e == Error::InvalidConfig(
                self.media.feed_err_spec(self.feed),
            ),
    {
        let mut buf: Vec<u8> = Vec::new();

        let feed_bytes = match self.media.check_feed_value(self.feed) {
            Ok(b) => b,
            Err(e) => {
                return Err(Error::InvalidConfig(e));
            }
        };

        buf.push(0x1B);
        buf.push(0x69);
        buf.push(0x64);
        buf.push(feed_bytes[0]);
        buf.push(feed_bytes[1]);

        let various_mode: u8 = match self.auto_cut {
            AutoCut::Enabled(_) => 0b0100_0000,
            AutoCut::Disabled => 0b0000_0000,
        };
        let auto_cut_count: u8 = match self.auto_cut {
            AutoCut::Enabled(n) => n,
            AutoCut::Disabled => 1,
        };

        buf.push(0x1B);
        buf.push(0x69);
        buf.push(0x4D);
        buf.push(various_mode);

        buf.push(0x1B);
        buf.push(0x69);
        buf.push(0x41);
        buf.push(auto_cut_count);

        let mut expanded: u8 = 0b0000_0000;
        if self.two_colors {
            expanded = expanded + 0b0000_0001;
        }
        if self.cut_at_end {
            expanded = expanded + 0b0000_1000;
        }
        if self.high_resolution {
            expanded = expanded + 0b0100_0000;
        }

        buf.push(0x1B);
        buf.push(0x69);
        buf.push(0x4B);
        buf.push(expanded);

        proof {
            assert(buf@ =~= mode_commands(*self));
        }
        Ok(buf)
    }
}

} // verus!
