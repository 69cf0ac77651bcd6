use termclock::config::{Config, ConfigError};
use termclock::countdown::{CountdownArgs, CountdownCommands, Timestamp, MAX_DURATION_SECS};
use termclock::display::Color8;

fn args() -> CountdownArgs {
    CountdownArgs {
        duration: Some(60),
        target: None,
        height: 1,
        width: 2,
        x: 0,
        y: 0,
        font: 1,
        color: Color8(3),
    }
}

fn with(args: CountdownArgs) -> Config {
    Config { countdown: Some(CountdownCommands::Countdown(args)), ..Config::default() }
}

#[test]
fn the_default_configuration_is_valid() {
    let c = Config::default();
    assert_eq!((c.height, c.width, c.x, c.y, c.use12_hour, c.font, c.color), (1, 2, 0, 0, false, 0, Color8(3)));
    assert!(c.countdown.is_none());
    assert_eq!(c.validate(), Ok(()));
    assert_eq!(Config { font: 1, use12_hour: true, ..c }.validate(), Ok(()));
}

#[test]
fn a_font_index_out_of_range_is_turned_down() {
    assert_eq!(Config { font: 2, ..Config::default() }.validate(), Err(ConfigError::Font));
    assert_eq!(Config { font: usize::MAX, ..Config::default() }.validate(), Err(ConfigError::Font));
    assert_eq!(with(CountdownArgs { font: 2, ..args() }).validate(), Err(ConfigError::CountdownFont));
    let both = Config { font: 9, ..with(CountdownArgs { font: 9, ..args() }) };
    assert_eq!(both.validate(), Err(ConfigError::Font));
}

#[test]
fn a_countdown_needs_exactly_one_of_duration_and_target() {
    assert_eq!(with(args()).validate(), Ok(()));
    let t = Some(Timestamp::new(0, 0));
    assert_eq!(with(CountdownArgs { duration: None, target: t, ..args() }).validate(), Ok(()));
    assert_eq!(
        with(CountdownArgs { duration: None, target: None, ..args() }).validate(),
        Err(ConfigError::CountdownMissing)
    );
    assert_eq!(
        with(CountdownArgs { target: t, ..args() }).validate(),
        Err(ConfigError::CountdownBoth)
    );
}

#[test]
fn a_duration_beyond_the_longest_is_turned_down() {
    let d = |secs| with(CountdownArgs { duration: Some(secs), ..args() }).validate();
    assert_eq!(d(MAX_DURATION_SECS), Ok(()));
    assert_eq!(d(-MAX_DURATION_SECS), Ok(()));
    assert_eq!(d(MAX_DURATION_SECS + 1), Err(ConfigError::CountdownDuration));
    assert_eq!(d(-MAX_DURATION_SECS - 1), Err(ConfigError::CountdownDuration));
    assert_eq!(d(i64::MIN), Err(ConfigError::CountdownDuration));
}

#[test]
fn every_reason_has_its_words() {
    assert_eq!(ConfigError::Font.describe(), "the font index names no font");
    assert_eq!(ConfigError::CountdownFont.describe(), "the countdown's font index names no font");
    assert_eq!(ConfigError::CountdownMissing.describe(), "the countdown needs a duration or a target");
    assert_eq!(
        ConfigError::CountdownBoth.describe(),
        "the countdown takes a duration or a target, not both"
    );
    assert_eq!(ConfigError::CountdownDuration.describe(), "the countdown's duration is too long");
}
