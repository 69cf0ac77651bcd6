//! Start-up configuration of the clock and the rules it must meet before
//! anything is drawn.

use crate::countdown::{CountdownArgs, CountdownCommands, MAX_DURATION_SECS};
use crate::display::Color8;
use crate::font::FONT_COUNT;
use vstd::prelude::*;

verus! {

/// What the user asked of the clock.
#[derive(Clone, Copy, Debug)]
pub struct Config {
    /// Height of each digit tile.
    pub height: u16,
    /// Width of each digit tile.
    pub width: u16,
    /// Horizontal offset.
    pub x: u16,
    /// Vertical offset.
    pub y: u16,
    /// Use the 12-hour clock format.
    pub use12_hour: bool,
    /// Font of the digits.
    pub font: usize,
    /// Colour of the digit tiles.
    pub color: Color8,
    /// The countdown, if one was asked for.
    pub countdown: Option<CountdownCommands>,
}

/// Why a configuration is turned down.
#[derive(Clone, Copy, Debug, PartialEq, Eq, Structural)]
pub enum ConfigError {
    /// The clock's font index names no font.
    Font,
    /// The countdown's font index names no font.
    CountdownFont,
    /// The countdown has neither a duration nor a target.
    CountdownMissing,
    /// The countdown has both a duration and a target.
    CountdownBoth,
    /// The countdown's duration is longer than a duration can be.
    CountdownDuration,
}

impl ConfigError {
    /// The words `describe` gives for each reason.
    pub open spec fn words(self) -> Seq<char> {
        match self {
            ConfigError::Font => "the font index names no font"@,
            ConfigError::CountdownFont => "the countdown's font index names no font"@,
            ConfigError::CountdownMissing => "the countdown needs a duration or a target"@,
            ConfigError::CountdownBoth => "the countdown takes a duration or a target, not both"@,
            ConfigError::CountdownDuration => "the countdown's duration is too long"@,
        }
    }

    /// Says in words why the configuration is turned down.
    pub fn describe(&self) -> (words: &'static str)
        ensures
            words@ == self.words(),
    {
        match self {
            ConfigError::Font => "the font index names no font",
            ConfigError::CountdownFont => "the countdown's font index names no font",
            ConfigError::CountdownMissing => "the countdown needs a duration or a target",
            ConfigError::CountdownBoth => "the countdown takes a duration or a target, not both",
            ConfigError::CountdownDuration => "the countdown's duration is too long",
        }
    }
}

/// The first rule the countdown arguments break, if any.
pub open spec fn countdown_fault(args: CountdownArgs) -> Option<ConfigError> {
    if args.font >= FONT_COUNT {
        Some(ConfigError::CountdownFont)
    } else if args.duration.is_none() && args.target.is_none() {
        Some(ConfigError::CountdownMissing)
    } else if args.duration.is_some() && args.target.is_some() {
        Some(ConfigError::CountdownBoth)
    } else if args.duration.is_some() && !(-MAX_DURATION_SECS <= args.duration.unwrap()
        <= MAX_DURATION_SECS) {
        Some(ConfigError::CountdownDuration)
    } else {
        None
    }
}

/// The first rule the configuration breaks, if any: the clock's font
/// first, then the countdown's arguments.
pub open spec fn config_fault(config: Config) -> Option<ConfigError> {
    if config.font >= FONT_COUNT {
        Some(ConfigError::Font)
    } else {
        match config.countdown {
            Some(CountdownCommands::Countdown(args)) => countdown_fault(args),
            None => None,
        }
    }
}

impl Config {
    /// A configuration is valid when it breaks no rule.
    pub open spec fn valid(&self) -> bool {
        config_fault(*self).is_none()
    }

    /// Checks the configuration before the clock starts.
    pub fn validate(&self) -> (r: Result<(), ConfigError>)
        ensures
            r.is_ok() <==> self.valid(),
            r.is_err() ==> config_fault(*self) == Some(r.unwrap_err()),
    {
        if self.font >= FONT_COUNT {
            return Err(ConfigError::Font);
        }
        match self.countdown {
            Some(CountdownCommands::Countdown(args)) => {
                if args.font >= FONT_COUNT {
                    Err(ConfigError::CountdownFont)
                } else if args.duration.is_none() && args.target.is_none() {
                    Err(ConfigError::CountdownMissing)
                } else if args.duration.is_some() && args.target.is_some() {
                    Err(ConfigError::CountdownBoth)
                } else {
                    match args.duration {
                        Some(d) => {
                            if d < -MAX_DURATION_SECS || d > MAX_DURATION_SECS {
                                Err(ConfigError::CountdownDuration)
                            } else {
                                Ok(())
                            }
                        },
                        None => Ok(()),
                    }
                }
            },
            None => Ok(()),
        }
    }
}

impl Default for Config {
    /// Tiles one row high and two columns wide, no offset, the 24-hour
    /// format, the large font, colour 3 and no countdown.
    fn default() -> (c: Self)
        ensures
            c.height == 1,
            c.width == 2,
            c.x == 0,
            c.y == 0,
            !c.use12_hour,
            c.font == 0,
            c.color == Color8(3),
            c.countdown.is_none(),
    {
        Config {
            height: 1,
            width: 2,
            x: 0,
            y: 0,
            use12_hour: false,
            font: 0,
            color: Color8(3),
            countdown: None,
        }
    }
}

} // verus!
