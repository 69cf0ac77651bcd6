//! The clock: the time of day as symbols, and the decisions of the render
//! loop.

use crate::config::{config_fault, Config, ConfigError};
use crate::countdown::{
    countdown_symbols, seconds_left, CountdownArgs, CountdownCommands, Timestamp, CALENDAR_SECS,
    CD,
};
use crate::display::{
    all_valid, clear_all, frame, hide_cursor, show_cursor, symbols_valid, write_clear_all,
    write_cursor, Draw, DrawConfig,
};
use crate::font::{A, COLON, FONT_COUNT, M, P, SPACE};
use crate::layout::{countdown_layout, face_layout, place_countdown, place_face};
use chrono::Timelike;
use vstd::prelude::*;

verus! {

/// The hour on a 12-hour dial, from 1 to 12, and whether it is past noon.
pub open spec fn hour12(h: int) -> (bool, int) {
    (h >= 12, if h % 12 == 0 { 12 } else { h % 12 })
}

/// A time of day.
#[derive(Clone, Copy, Debug)]
pub struct Time {
    pub h: usize,
    pub m: usize,
    pub s: usize,
    /// Whether it is past noon, and the hour on a 12-hour dial.
    pub pm_h: (bool, usize),
}

/// What the local wall clock reads at one instant.
#[derive(Clone, Copy, Debug)]
pub(crate) struct WallClock {
    /// The first second of the local day, on the calendar's own time line.
    pub midnight: i64,
    pub hour: u32,
    pub minute: u32,
    pub second: u32,
    /// Nanoseconds into the second; from one thousand million on, into a
    /// leap second.
    pub nanosecond: u32,
}

/// Reads the local wall clock.
///
/// Trusted: calls `chrono::Local::now` and hands out the midnight of its
/// local date as calendar seconds, and the hour, minute, second and
/// nanosecond of its local time of day. The claim is chrono's documented
/// ranges: a date the calendar can hold, hour below 24, minute and second
/// below 60, and nanosecond below two thousand million.
#[verifier::external_body]
pub(crate) fn local_now() -> (r: WallClock)
    ensures
        -CALENDAR_SECS < r.midnight < CALENDAR_SECS,
        r.hour < 24,
        r.minute < 60,
        r.second < 60,
        r.nanosecond < 2_000_000_000,
{
    let now = chrono::Local::now().naive_local();
    WallClock {
        midnight: now.date().and_time(chrono::NaiveTime::MIN).and_utc().timestamp(),
        hour: now.time().hour(),
        minute: now.time().minute(),
        second: now.time().second(),
        nanosecond: now.time().nanosecond(),
    }
}

/// Asks the terminal for its size as (columns, rows).
///
/// Trusted: calls `terminal_size::terminal_size`. Nothing is claimed of the
/// answer, which is `None` when no standard stream is a terminal.
#[verifier::external_body]
fn terminal_dimensions() -> (r: Option<(u16, u16)>) {
    match terminal_size::terminal_size() {
        Some((terminal_size::Width(w), terminal_size::Height(h))) => Some((w, h)),
        None => None,
    }
}

impl Time {
    /// A time is well formed when its parts are in range and its 12-hour
    /// reading agrees with its hour.
    pub open spec fn wf(&self) -> bool {
        &&& self.h < 24
        &&& self.m < 60
        &&& self.s < 60
        &&& self.pm_h.0 == hour12(self.h as int).0
        &&& self.pm_h.1 == hour12(self.h as int).1
    }

    /// The time of day with the given hour, minute and second.
    pub fn new(h: u32, m: u32, s: u32) -> (t: Self)
        ensures
            t.h == h,
            t.m == m,
            t.s == s,
            t.pm_h.0 == hour12(h as int).0,
            t.pm_h.1 == hour12(h as int).1,
            h < 24 && m < 60 && s < 60 ==> t.wf(),
    {
        let mut dial: u32 = h % 12;
        if dial == 0 {
            dial = 12;
        }
        Time { h: h as usize, m: m as usize, s: s as usize, pm_h: (h >= 12, dial as usize) }
    }

    /// The local time of day right now.
    pub fn now() -> (t: Self)
        ensures
            t.wf(),
    {
        let now = local_now();
        Time::new(now.hour, now.minute, now.second)
    }
}

/// The symbols of a time of day. In the 24-hour format: hour, minute and
/// second, two digits each, with colons between. In the 12-hour format: the
/// same with the hour of the 12-hour dial, then a blank, `A` or `P`, and `M`.
pub open spec fn time_symbols(use12_hour: bool, time: Time) -> Seq<usize> {
    if !use12_hour {
        seq![
            time.h / 10,
            time.h % 10,
            COLON,
            time.m / 10,
            time.m % 10,
            COLON,
            time.s / 10,
            time.s % 10,
        ]
    } else {
        seq![
            time.pm_h.1 / 10,
            time.pm_h.1 % 10,
            COLON,
            time.m / 10,
            time.m % 10,
            COLON,
            time.s / 10,
            time.s % 10,
            SPACE,
            if time.pm_h.0 { P } else { A },
            M,
        ]
    }
}

/// Number of symbols of a time of day in either format.
pub open spec fn time_symbol_count(use12_hour: bool) -> int {
    if use12_hour {
        11
    } else {
        8
    }
}

/// The symbols of the time of day `time` in the given format.
pub fn format_time(use12_hour: bool, time: Time) -> (symbols: Vec<usize>)
    ensures
        symbols@ == time_symbols(use12_hour, time),
{
    let mut symbols: Vec<usize> = Vec::new();
    let hour = if use12_hour { time.pm_h.1 } else { time.h };
    symbols.push(hour / 10);
    symbols.push(hour % 10);
    symbols.push(COLON);
    symbols.push(time.m / 10);
    symbols.push(time.m % 10);
    symbols.push(COLON);
    symbols.push(time.s / 10);
    symbols.push(time.s % 10);
    if use12_hour {
        symbols.push(SPACE);
        symbols.push(if time.pm_h.0 { P } else { A });
        symbols.push(M);
    }
    assert(symbols@ =~= time_symbols(use12_hour, time));
    symbols
}

/// For every valid time of day: the 24-hour format has eight symbols,
/// `[h/10, h%10, 10, m/10, m%10, 10, s/10, s%10]`; the 12-hour format has
/// eleven, the last three being blank, `A` or `P`, and `M`, with `A` exactly
/// when the hour is before noon. Either way every symbol names a glyph.
pub proof fn lemma_time_symbols(use12_hour: bool, time: Time)
    requires
        time.wf(),
    ensures
        symbols_valid(time_symbols(use12_hour, time)),
        time_symbols(use12_hour, time).len() == time_symbol_count(use12_hour),
        !use12_hour ==> time_symbols(use12_hour, time) == seq![
            time.h / 10,
            time.h % 10,
            10usize,
            time.m / 10,
            time.m % 10,
            10usize,
            time.s / 10,
            time.s % 10,
        ],
        use12_hour ==> time_symbols(use12_hour, time)[8] == 11,
        use12_hour ==> time_symbols(use12_hour, time)[10] == 14,
        use12_hour ==> (time_symbols(use12_hour, time)[9] == 12 <==> time.h < 12),
        use12_hour ==> (time_symbols(use12_hour, time)[9] == 13 <==> time.h >= 12),
{
}

/// Nanoseconds from a moment `nanosecond` nanoseconds into its second to the
/// next whole second. A leap second counts from its own start.
pub open spec fn to_next_second(nanosecond: int) -> int {
    1_000_000_000 - nanosecond % 1_000_000_000
}

/// How long to sleep so that the next tick falls on a second boundary.
pub fn nanos_to_next_second(nanosecond: u32) -> (nanos: u64)
    ensures
        nanos == to_next_second(nanosecond as int),
        1 <= nanos <= 1_000_000_000,
{
    1_000_000_000u64 - (nanosecond % 1_000_000_000u32) as u64
}

/// How long to sleep from now to the next second boundary of the wall clock.
pub fn tick_delay() -> (nanos: u64)
    ensures
        1 <= nanos <= 1_000_000_000,
{
    let now = local_now();
    nanos_to_next_second(now.nanosecond)
}

/// The two states of the render loop.
#[derive(Clone, Copy, Debug, PartialEq, Eq, Structural)]
pub enum State {
    Running,
    Stopped,
}

/// Why a pass of the render loop drew nothing.
#[derive(Clone, Copy, Debug, PartialEq, Eq, Structural)]
pub enum ClockError {
    /// The terminal would not tell its size.
    NoTerminal,
    /// The clock face has not been placed yet.
    NotPlaced,
    /// The clock face would start off the screen.
    OffScreen,
    /// The countdown would start off the screen.
    CountdownOffScreen,
    /// A symbol to draw has no glyph.
    Glyph,
}

impl ClockError {
    /// The words `describe` gives for each reason.
    pub open spec fn words(self) -> Seq<char> {
        match self {
            ClockError::NoTerminal => "Error while getting the terminal's size"@,
            ClockError::NotPlaced => "The clock has not been placed on the terminal"@,
            ClockError::OffScreen => "The clock does not fit on the terminal"@,
            ClockError::CountdownOffScreen => "The countdown does not fit on the terminal"@,
            ClockError::Glyph => "The time to show has a symbol without a glyph"@,
        }
    }

    /// Says in words why the pass drew nothing.
    pub fn describe(&self) -> (words: &'static str)
        ensures
            words@ == self.words(),
    {
        match self {
            ClockError::NoTerminal => "Error while getting the terminal's size",
            ClockError::NotPlaced => "The clock has not been placed on the terminal",
            ClockError::OffScreen => "The clock does not fit on the terminal",
            ClockError::CountdownOffScreen => "The countdown does not fit on the terminal",
            ClockError::Glyph => "The time to show has a symbol without a glyph",
        }
    }
}

/// What a clock is, for all to see.
pub struct ClockView {
    pub config: Config,
    pub countdown: Option<CD>,
    pub state: State,
    pub restored: bool,
    pub size: (u16, u16),
    pub layout: Option<DrawConfig>,
    pub last_len: usize,
}

/// The clock: its configuration, the countdown while one runs, and where
/// the render loop stands.
pub struct Clock {
    config: Config,
    countdown: Option<CD>,
    state: State,
    restored: bool,
    size: (u16, u16),
    layout: Option<DrawConfig>,
    last_len: usize,
}

impl Clock {
    /// A clock always holds a valid configuration, and a face placed with
    /// one of the table's fonts.
    #[verifier::type_invariant]
    spec fn inv(self) -> bool {
        &&& self.config.valid()
        &&& self.layout matches Some(layout) ==> layout.font < FONT_COUNT
    }
}

impl View for Clock {
    type V = ClockView;

    closed spec fn view(&self) -> ClockView {
        ClockView {
            config: self.config,
            countdown: self.countdown,
            state: self.state,
            restored: self.restored,
            size: self.size,
            layout: self.layout,
            last_len: self.last_len,
        }
    }
}

/// The countdown a configuration starts when the clock reads `now`: one that
/// ends a duration after `now`, or one that ends at a target, and none when
/// the configuration has neither or both.
pub open spec fn initial_countdown(config: Config, now: Timestamp) -> Option<CD> {
    match config.countdown {
        Some(CountdownCommands::Countdown(args)) => match (args.duration, args.target) {
            (Some(duration), None) => Some(
                CD { end: Timestamp { secs: (now.secs + duration) as i64, nanos: now.nanos } },
            ),
            (None, Some(target)) => Some(CD { end: target }),
            _ => None,
        },
        None => None,
    }
}

/// A clock just set up from `config` at the instant `now`.
pub open spec fn initial_clock(config: Config, now: Timestamp) -> ClockView {
    ClockView {
        config,
        countdown: initial_countdown(config, now),
        state: State::Running,
        restored: false,
        size: (0, 0),
        layout: None,
        last_len: 0,
    }
}

/// The clock after an attempt to place its face on a terminal of `columns`
/// by `rows` cells: placed where `face_layout` says, or left as it was when
/// the face would start off the screen.
pub open spec fn placed(c: ClockView, columns: u16, rows: u16) -> ClockView {
    match face_layout(c.config, columns, rows) {
        Some(layout) => ClockView { size: (columns, rows), layout: Some(layout), ..c },
        None => c,
    }
}

/// What an attempt to place the face returns.
pub open spec fn place_result(c: ClockView, columns: u16, rows: u16) -> Result<(), ClockError> {
    if face_layout(c.config, columns, rows).is_some() {
        Ok(())
    } else {
        Err(ClockError::OffScreen)
    }
}

/// What asking a terminal of `columns` by `rows` cells for its size and
/// placing the face on it leaves behind.
pub open spec fn started(
    before: ClockView,
    after: ClockView,
    r: Result<(), ClockError>,
    columns: u16,
    rows: u16,
) -> bool {
    after == placed(before, columns, rows) && r == place_result(before, columns, rows)
}

/// What the countdown of `c` shows at `now`, if one runs.
pub open spec fn countdown_shown(c: ClockView, now: Timestamp) -> Option<Seq<usize>> {
    match c.countdown {
        Some(cd) => Some(countdown_symbols(seconds_left(cd.end, now))),
        None => None,
    }
}

/// The arguments a running countdown is drawn with.
pub open spec fn countdown_args(c: ClockView) -> Option<CountdownArgs> {
    match (c.countdown, c.config.countdown) {
        (Some(_), Some(CountdownCommands::Countdown(args))) => Some(args),
        _ => None,
    }
}

/// Where a running countdown is drawn at `now`.
pub open spec fn countdown_place(c: ClockView, now: Timestamp) -> Option<DrawConfig> {
    match (countdown_shown(c, now), countdown_args(c)) {
        (Some(shown), Some(args)) => countdown_layout(args, c.size.0, c.size.1, shown.len() as int),
        _ => None,
    }
}

/// Why a pass at `now`, with the wall clock at `time`, draws nothing: the
/// first of the reasons that holds, and `None` when the pass goes through.
pub open spec fn tick_fault(c: ClockView, now: Timestamp, time: Time) -> Option<ClockError> {
    if c.layout.is_none() {
        Some(ClockError::NotPlaced)
    } else if countdown_args(c).is_some() && countdown_place(c, now).is_none() {
        Some(ClockError::CountdownOffScreen)
    } else if countdown_args(c).is_some() && !symbols_valid(countdown_shown(c, now).unwrap()) {
        Some(ClockError::Glyph)
    } else if !symbols_valid(time_symbols(c.config.use12_hour, time)) {
        Some(ClockError::Glyph)
    } else {
        None
    }
}

/// What the countdown's part of a pass draws, given what it shows, where,
/// and how many symbols it showed the pass before.
pub open spec fn countdown_drawn(shown: Seq<usize>, place: Option<DrawConfig>, last_len: usize) -> Seq<
    u8,
> {
    (if shown.len() == 0 {
        clear_all()
    } else {
        Seq::empty()
    }) + (if shown.len() != last_len {
        clear_all()
    } else {
        Seq::empty()
    }) + (match place {
        Some(p) => frame(shown, p),
        None => Seq::empty(),
    })
}

/// What a pass draws for the countdown: a screen clear if the countdown has
/// just run out, another if its number of symbols has changed since the last
/// pass, then its frame.
pub open spec fn countdown_output(c: ClockView, now: Timestamp) -> Seq<u8> {
    match countdown_shown(c, now) {
        Some(shown) => countdown_drawn(shown, countdown_place(c, now), c.last_len),
        None => Seq::empty(),
    }
}

/// Everything a pass that goes through draws: the countdown's part, then
/// the frame of the time of day.
pub open spec fn tick_output(c: ClockView, now: Timestamp, time: Time) -> Seq<u8> {
    countdown_output(c, now) + frame(time_symbols(c.config.use12_hour, time), c.layout.unwrap())
}

/// The clock after a pass that goes through: a countdown that has run out is
/// dropped, and the number of symbols it showed is remembered.
pub open spec fn tick_next(c: ClockView, now: Timestamp) -> ClockView {
    match countdown_shown(c, now) {
        Some(shown) => ClockView {
            countdown: if shown.len() == 0 {
                None
            } else {
                c.countdown
            },
            last_len: shown.len() as usize,
            ..c
        },
        None => c,
    }
}

/// Whether a pass does nothing but stop: on a stop request, and on a clock
/// that has stopped before.
pub open spec fn tick_stops(c: ClockView, stop: bool) -> bool {
    stop || c.state == State::Stopped
}

/// What one pass of the render loop returns: `Stopped` when it stops, the
/// fault when there is one, and `Running` otherwise.
pub open spec fn tick_result(c: ClockView, stop: bool, now: Timestamp, time: Time) -> Result<
    State,
    ClockError,
> {
    if tick_stops(c, stop) {
        Ok(State::Stopped)
    } else {
        match tick_fault(c, now, time) {
            Some(e) => Err(e),
            None => Ok(State::Running),
        }
    }
}

/// The clock after one pass: stopped when the pass stops, as it was on a
/// fault, and moved on by `tick_next` otherwise.
pub open spec fn tick_after(c: ClockView, stop: bool, now: Timestamp, time: Time) -> ClockView {
    if tick_stops(c, stop) {
        ClockView { state: State::Stopped, ..c }
    } else if tick_fault(c, now, time).is_some() {
        c
    } else {
        tick_next(c, now)
    }
}

/// What one pass draws: nothing when it stops or on a fault, and
/// `tick_output` otherwise.
pub open spec fn tick_drawn(c: ClockView, stop: bool, now: Timestamp, time: Time) -> Seq<u8> {
    if tick_stops(c, stop) || tick_fault(c, now, time).is_some() {
        Seq::empty()
    } else {
        tick_output(c, now, time)
    }
}

/// The relation one pass of the render loop, made at the instant `now` with
/// the wall clock at `time`, establishes between the clock and the output
/// before and after it.
pub open spec fn ticked(
    before: ClockView,
    after: ClockView,
    out_before: Seq<u8>,
    out_after: Seq<u8>,
    r: Result<State, ClockError>,
    stop: bool,
    now: Timestamp,
    time: Time,
) -> bool {
    &&& r == tick_result(before, stop, now, time)
    &&& after == tick_after(before, stop, now, time)
    &&& out_after == out_before + tick_drawn(before, stop, now, time)
}

/// The render loop has two states and one way between them: a running clock
/// stops exactly on a stop request, a stopped clock stays stopped and draws
/// nothing, and no pass touches the configuration or undoes the placement.
pub proof fn lemma_stop_is_final(c: ClockView, stop: bool, now: Timestamp, time: Time)
    ensures
        tick_after(c, stop, now, time).state == State::Stopped <==> tick_stops(c, stop),
        c.state == State::Stopped ==> tick_after(c, stop, now, time) == c && tick_drawn(
            c,
            stop,
            now,
            time,
        ) == Seq::<u8>::empty(),
        tick_after(c, stop, now, time).config == c.config,
        tick_after(c, stop, now, time).layout == c.layout,
        tick_after(c, stop, now, time).restored == c.restored,
{
}

/// The clock after the terminal has been restored.
pub open spec fn restored(c: ClockView) -> ClockView {
    ClockView { restored: true, ..c }
}

/// What restoring the terminal writes: the screen clear and the cursor show,
/// unless they have been written before.
pub open spec fn restore_output(c: ClockView) -> Seq<u8> {
    if c.restored {
        Seq::empty()
    } else {
        clear_all() + show_cursor()
    }
}

/// What a pass has decided to draw.
struct Plan {
    shown: Option<Vec<usize>>,
    place: Option<DrawConfig>,
    formatted: Vec<usize>,
    layout: DrawConfig,
}

impl Plan {
    /// Whether the plan holds what the clock `c` shows at `now` and `time`,
    /// all of it fit to draw.
    spec fn agrees(self, c: ClockView, now: Timestamp, time: Time) -> bool {
        &&& c.layout == Some(self.layout)
        &&& self.layout.font < FONT_COUNT
        &&& self.formatted@ == time_symbols(c.config.use12_hour, time)
        &&& symbols_valid(self.formatted@)
        &&& match self.shown {
            Some(v) => countdown_shown(c, now) == Some(v@),
            None => countdown_shown(c, now).is_none(),
        }
        &&& match self.place {
            Some(p) => {
                &&& countdown_args(c).is_some()
                &&& countdown_place(c, now) == Some(p)
                &&& p.font < FONT_COUNT
                &&& self.shown.is_some()
                &&& symbols_valid(self.shown.unwrap()@)
            },
            None => countdown_args(c).is_none(),
        }
    }
}

/// Draws the countdown's part of a pass.
fn draw_countdown(
    draw: &mut Draw,
    remaining: &Vec<usize>,
    place: Option<DrawConfig>,
    last_len: usize,
    out: &mut Vec<u8>,
)
    requires
        place matches Some(p) ==> p.font < FONT_COUNT && symbols_valid(remaining@),
    ensures
        final(out)@ == old(out)@ + countdown_drawn(remaining@, place, last_len),
{
    if remaining.len() == 0 {
        write_clear_all(out);
    }
    if remaining.len() != last_len {
        write_clear_all(out);
    }
    match place {
        Some(p) => {
            draw.show_time(remaining, &p, out);
        },
        None => {},
    }
    assert(out@ =~= old(out)@ + countdown_drawn(remaining@, place, last_len));
}

impl Clock {
    /// Sets the clock up at the instant `now`: appends the screen clear and
    /// the cursor hide to `out` and starts the countdown the configuration
    /// asks for. A configuration that breaks a rule is turned down and
    /// nothing is appended.
    pub fn new_at(config: Config, now: Timestamp, out: &mut Vec<u8>) -> (r: Result<
        Clock,
        ConfigError,
    >)
        requires
            now.in_calendar(),
        ensures
            r.is_ok() <==> config.valid(),
            r matches Ok(clock) ==> clock@ == initial_clock(config, now) && final(out)@ == old(
                out,
            )@ + clear_all() + hide_cursor(),
            r matches Err(e) ==> config_fault(config) == Some(e) && final(out)@
                == old(out)@,
    {
        match config.validate() {
            Err(e) => {
                return Err(e);
            },
            Ok(_) => {},
        }
        write_clear_all(out);
        write_cursor(out, false);
        let countdown = match config.countdown {
            Some(CountdownCommands::Countdown(args)) => match (args.duration, args.target) {
                (Some(duration), None) => Some(CD::starting_at(now, duration)),
                (None, Some(target)) => Some(CD::new_target(target)),
                _ => None,
            },
            None => None,
        };
        Ok(
            Clock {
                config,
                countdown,
                state: State::Running,
                restored: false,
                size: (0, 0),
                layout: None,
                last_len: 0,
            },
        )
    }

    /// Sets the clock up now. As `new_at`, at whatever instant the system
    /// clock reads.
    pub fn new(config: Config, out: &mut Vec<u8>) -> (r: Result<Clock, ConfigError>)
        ensures
            r.is_ok() <==> config.valid(),
            r matches Ok(clock) ==> final(out)@ == old(out)@ + clear_all() + hide_cursor()
                && exists|now: Timestamp| #[trigger] initial_clock(config, now) == clock@,
            r matches Err(e) ==> config_fault(config) == Some(e) && final(out)@
                == old(out)@,
    {
        let now = Timestamp::now();
        let r = Clock::new_at(config, now, out);
        proof {
            if r.is_ok() {
                assert(initial_clock(config, now) == r.unwrap()@);
            }
        }
        r
    }

    /// Places the clock face on a terminal of `columns` by `rows` cells.
    /// Fails, and changes nothing, when the face would start off the screen.
    pub fn place(&mut self, columns: u16, rows: u16) -> (r: Result<(), ClockError>)
        ensures
            r == place_result(old(self)@, columns, rows),
            final(self)@ == placed(old(self)@, columns, rows),
    {
        proof {
            use_type_invariant(&*self);
        }
        match place_face(&self.config, columns, rows) {
            Some(layout) => {
                self.size = (columns, rows);
                self.layout = Some(layout);
                Ok(())
            },
            None => Err(ClockError::OffScreen),
        }
    }

    /// Asks the terminal for its size and places the clock face on it. A
    /// terminal that gives no size leaves the clock as it was; whatever size
    /// it gives, the clock is as `place` leaves it for that size.
    pub fn start(&mut self) -> (r: Result<(), ClockError>)
        ensures
            r == Err::<(), ClockError>(ClockError::NoTerminal) ==> final(self)@ == old(self)@,
            r != Err::<(), ClockError>(ClockError::NoTerminal) ==> exists|columns: u16, rows: u16|
                #[trigger] started(old(self)@, final(self)@, r, columns, rows),
    {
        match terminal_dimensions() {
            Some((columns, rows)) => {
                let r = self.place(columns, rows);
                assert(started(old(self)@, self@, r, columns, rows));
                r
            },
            None => Err(ClockError::NoTerminal),
        }
    }

    /// The configuration the clock was set up with.
    pub fn config(&self) -> (config: Config)
        ensures
            config == self@.config,
            config.valid(),
    {
        proof {
            use_type_invariant(self);
        }
        self.config
    }

    /// The countdown, while one runs.
    pub fn countdown(&self) -> (countdown: Option<CD>)
        ensures
            countdown == self@.countdown,
    {
        self.countdown
    }

    /// Where the render loop stands.
    pub fn state(&self) -> (state: State)
        ensures
            state == self@.state,
    {
        self.state
    }

    /// Where the face is placed, once it is.
    pub fn layout(&self) -> (layout: Option<DrawConfig>)
        ensures
            layout == self@.layout,
    {
        self.layout
    }

    /// The symbols of `time` in the configured format.
    pub fn time_formatter(&mut self, time: Time) -> (symbols: Vec<usize>)
        ensures
            symbols@ == time_symbols(old(self)@.config.use12_hour, time),
            final(self)@ == old(self)@,
    {
        format_time(self.config.use12_hour, time)
    }

    /// Decides what a pass at `now` draws, or why it draws nothing.
    fn plan(&self, now: Timestamp, time: Time) -> (r: Result<Plan, ClockError>)
        ensures
            r matches Ok(plan) ==> tick_fault(self@, now, time).is_none() && plan.agrees(
                self@,
                now,
                time,
            ),
            r matches Err(e) ==> tick_fault(self@, now, time) == Some(e),
    {
        proof {
            use_type_invariant(self);
        }
        let layout = match self.layout {
            Some(layout) => layout,
            None => {
                return Err(ClockError::NotPlaced);
            },
        };
        let mut shown: Option<Vec<usize>> = None;
        let mut place: Option<DrawConfig> = None;
        match self.countdown {
            Some(cd) => {
                let remaining = cd.remaining_at(now);
                match self.config.countdown {
                    Some(CountdownCommands::Countdown(args)) => {
                        match place_countdown(&args, self.size.0, self.size.1, remaining.len()) {
                            Some(p) => {
                                place = Some(p);
                            },
                            None => {
                                return Err(ClockError::CountdownOffScreen);
                            },
                        }
                        if !all_valid(&remaining) {
                            return Err(ClockError::Glyph);
                        }
                    },
                    None => {},
                }
                shown = Some(remaining);
            },
            None => {},
        }
        let formatted = format_time(self.config.use12_hour, time);
        if !all_valid(&formatted) {
            return Err(ClockError::Glyph);
        }
        Ok(Plan { shown, place, formatted, layout })
    }

    /// One pass of the render loop at the instant `now`, with the wall clock
    /// at `time`. A stop request stops the clock and draws nothing. A fault
    /// is returned before anything is drawn or changed. Otherwise the pass
    /// appends to `out` the countdown, if one runs, and the time of day.
    pub fn tick_at(&mut self, stop: bool, now: Timestamp, time: Time, out: &mut Vec<u8>) -> (r:
        Result<State, ClockError>)
        ensures
            ticked(old(self)@, final(self)@, old(out)@, final(out)@, r, stop, now, time),
    {
        proof {
            use_type_invariant(&*self);
        }
        let stopped = match self.state {
            State::Stopped => true,
            State::Running => false,
        };
        if stop || stopped {
            self.state = State::Stopped;
            assert(out@ =~= old(out)@ + tick_drawn(old(self)@, stop, now, time));
            return Ok(State::Stopped);
        }
        let plan = match self.plan(now, time) {
            Ok(plan) => plan,
            Err(e) => {
                assert(out@ =~= old(out)@ + tick_drawn(old(self)@, stop, now, time));
                return Err(e);
            },
        };
        let mut draw = Draw::new();
        match plan.shown {
            Some(remaining) => {
                draw_countdown(&mut draw, &remaining, plan.place, self.last_len, out);
                if remaining.len() == 0 {
                    self.countdown = None;
                }
                self.last_len = remaining.len();
            },
            None => {},
        }
        assert(out@ =~= old(out)@ + countdown_output(old(self)@, now));
        draw.show_time(&plan.formatted, &plan.layout, out);
        assert(out@ =~= old(out)@ + tick_drawn(old(self)@, stop, now, time));
        Ok(State::Running)
    }

    /// One pass of the render loop, made now: as `tick_at`, at whatever
    /// instant the system clock reads and whatever valid time of day the
    /// wall clock shows.
    pub fn print_clock(&mut self, stop: bool, out: &mut Vec<u8>) -> (r: Result<State, ClockError>)
        ensures
            exists|now: Timestamp, time: Time| #[trigger]
                ticked(old(self)@, final(self)@, old(out)@, final(out)@, r, stop, now, time)
                    && time.wf(),
            stop ==> r == Ok::<State, ClockError>(State::Stopped) && final(out)@ == old(out)@,
    {
        let now = Timestamp::now();
        let time = Time::now();
        let r = self.tick_at(stop, now, time, out);
        assert(ticked(old(self)@, self@, old(out)@, out@, r, stop, now, time));
        r
    }

    /// Restores the terminal: appends the screen clear and the cursor show to
    /// `out`, the first time it is called and never again.
    pub fn finish(&mut self, out: &mut Vec<u8>)
        ensures
            final(self)@ == restored(old(self)@),
            final(out)@ == old(out)@ + restore_output(old(self)@),
    {
        proof {
            use_type_invariant(&*self);
        }
        if !self.restored {
            write_clear_all(out);
            write_cursor(out, true);
            self.restored = true;
        }
        assert(out@ =~= old(out)@ + restore_output(old(self)@));
    }
}

} // verus!
