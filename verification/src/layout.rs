//! Where things go on the screen: the clock face centred on the terminal,
//! the countdown centred above it.

use crate::clock::time_symbol_count;
use crate::config::Config;
use crate::countdown::CountdownArgs;
use crate::display::DrawConfig;
use crate::font::{font_height, font_width, Font, FONT_COUNT};
use vstd::prelude::*;

verus! {

/// Whether a coordinate is on the addressable screen.
pub open spec fn on_screen(v: int) -> bool {
    0 <= v <= u16::MAX
}

/// Columns the clock face takes: every symbol is one glyph and one gap wide,
/// each pixel `width` columns.
pub open spec fn face_columns(config: Config) -> int {
    (font_width(config.font as int) + 1) * config.width * time_symbol_count(config.use12_hour)
}

/// Rows the clock face takes.
pub open spec fn face_rows(config: Config) -> int {
    font_height(config.font as int) * config.height
}

/// Where the clock face goes on a terminal of `columns` by `rows` cells: its
/// middle on the terminal's middle, moved by the configured offsets. `None`
/// when that puts its top-left corner off the screen.
pub open spec fn face_layout(config: Config, columns: u16, rows: u16) -> Option<DrawConfig> {
    let x = config.x + columns / 2 - face_columns(config) / 2;
    let y = config.y + rows / 2 - face_rows(config) / 2;
    if on_screen(x) && on_screen(y) {
        Some(
            DrawConfig {
                width: config.width,
                height: config.height,
                x: x as u16,
                y: y as u16,
                font: config.font,
                color: config.color,
            },
        )
    } else {
        None
    }
}

/// Where a countdown of `len` symbols goes: centred on the terminal's middle
/// column, one and a half times its own height and two rows more above the
/// terminal's middle row. `None` when that is off the screen.
pub open spec fn countdown_layout(args: CountdownArgs, columns: u16, rows: u16, len: int) -> Option<
    DrawConfig,
> {
    let tall = font_height(args.font as int) * args.height;
    let x = columns / 2 - ((font_width(args.font as int) + 1) * args.width * len) / 2;
    let y = rows / 2 - tall - tall / 2 - 2;
    if on_screen(x) && on_screen(y) {
        Some(
            DrawConfig {
                width: args.width,
                height: args.height,
                x: x as u16,
                y: y as u16,
                font: args.font,
                color: args.color,
            },
        )
    } else {
        None
    }
}

/// Computes `face_layout`.
pub fn place_face(config: &Config, columns: u16, rows: u16) -> (r: Option<DrawConfig>)
    requires
        config.font < FONT_COUNT,
    ensures
        r == face_layout(*config, columns, rows),
{
    let f = Font::get(config.font);
    let count: i64 = if config.use12_hour { 11 } else { 8 };
    let glyph: i64 = f.width() as i64 + 1;
    let tall: i64 = f.height() as i64;
    assert(glyph * config.width <= 6 * 65535) by (nonlinear_arith)
        requires
            0 <= glyph <= 6,
            0 <= config.width <= 65535,
    ;
    let wide: i64 = glyph * config.width as i64;
    assert(0 <= wide * count <= 6 * 65535 * 11) by (nonlinear_arith)
        requires
            0 <= wide <= 6 * 65535,
            0 <= count <= 11,
    ;
    assert(0 <= tall * config.height <= 7 * 65535) by (nonlinear_arith)
        requires
            0 <= tall <= 7,
            0 <= config.height <= 65535,
    ;
    let x: i64 = config.x as i64 + (columns / 2) as i64 - (wide * count) / 2;
    let y: i64 = config.y as i64 + (rows / 2) as i64 - (tall * config.height as i64) / 2;
    if 0 <= x && x <= 65535 && 0 <= y && y <= 65535 {
        Some(
            DrawConfig::new(
                config.width,
                config.height,
                x as u16,
                y as u16,
                config.font,
                config.color,
            ),
        )
    } else {
        None
    }
}

/// Computes `countdown_layout`.
pub fn place_countdown(args: &CountdownArgs, columns: u16, rows: u16, len: usize) -> (r: Option<
    DrawConfig,
>)
    requires
        args.font < FONT_COUNT,
    ensures
        r == countdown_layout(*args, columns, rows, len as int),
{
    let f = Font::get(args.font);
    let glyph: i128 = f.width() as i128 + 1;
    let high: i128 = f.height() as i128;
    assert(0 <= glyph * args.width <= 6 * 65535) by (nonlinear_arith)
        requires
            0 <= glyph <= 6,
            0 <= args.width <= 65535,
    ;
    let wide: i128 = glyph * args.width as i128;
    assert(0 <= wide * len <= 6 * 65535 * 0x1_0000_0000_0000_0000) by (nonlinear_arith)
        requires
            0 <= wide <= 6 * 65535,
            0 <= len < 0x1_0000_0000_0000_0000,
    ;
    assert(0 <= high * args.height <= 7 * 65535) by (nonlinear_arith)
        requires
            0 <= high <= 7,
            0 <= args.height <= 65535,
    ;
    let tall: i128 = high * args.height as i128;
    let x: i128 = (columns / 2) as i128 - (wide * len as i128) / 2;
    let y: i128 = (rows / 2) as i128 - tall - tall / 2 - 2;
    if 0 <= x && x <= 65535 && 0 <= y && y <= 65535 {
        Some(DrawConfig::new(args.width, args.height, x as u16, y as u16, args.font, args.color))
    } else {
        None
    }
}

} // verus!
