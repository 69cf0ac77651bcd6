//! The glyph painter, the line buffer and the screen compositor.
//!
//! Everything here produces bytes: colour and cursor escapes followed by
//! blank cells. The caller owns the terminal and writes the bytes out.

use crate::font::{font_height, font_width, glyph_mask, Font, FONT_COUNT, SYMBOL_COUNT};
use crate::text::{decimal, parse_unsigned, push_decimal, unsigned_value};
use vstd::prelude::*;

verus! {

/// The escape byte that opens every control sequence.
pub const ESC: u8 = 0x1B;

/// Colour channel the painter sets: cells are blanks, so it is their
/// background that shows.
pub const CHANNEL: u8 = 48;

/// An index into the terminal's 256-colour palette.
#[derive(Clone, Copy, Debug, PartialEq, Eq, Structural)]
pub struct Color8(pub u8);

/// What a cell is painted with: a palette colour, or the terminal's default.
#[derive(Clone, Copy, Debug, PartialEq, Eq, Structural)]
pub enum Color {
    C8(Color8),
    Reset,
}

/// A colour applied to one channel (`background` is the channel's code).
#[derive(Clone, Copy, Debug, PartialEq, Eq, Structural)]
pub struct Paint {
    pub color: Color,
    pub background: u8,
}

/// Scale, position, font and colour of one rendered row of glyphs.
#[derive(Clone, Copy, Debug, PartialEq, Eq, Structural)]
pub struct DrawConfig {
    pub width: u16,
    pub height: u16,
    pub x: u16,
    pub y: u16,
    pub font: usize,
    pub color: Color8,
}

/// The bytes that select `color` on the channel `background`:
/// `ESC [ <background> ; 5 ; <index> m` for a palette colour and
/// `ESC [ <background + 1> m` for the default.
pub open spec fn paint_escape(paint: Paint) -> Seq<u8> {
    match paint.color {
        Color::C8(c) => seq![ESC, 91u8] + decimal(paint.background as nat) + seq![59u8, 53u8, 59u8]
            + decimal(c.0 as nat) + seq![109u8],
        Color::Reset => seq![ESC, 91u8] + decimal((paint.background + 1) as nat) + seq![109u8],
    }
}

/// The bytes that move the cursor to column `x`, row `y` (both counted from
/// zero): `ESC [ <y + 1> ; <x + 1> H`.
pub open spec fn move_escape(x: int, y: int) -> Seq<u8> {
    seq![ESC, 91u8] + decimal((y + 1) as nat) + seq![59u8] + decimal((x + 1) as nat) + seq![72u8]
}

/// `n` blank cells.
pub open spec fn blanks(n: int) -> Seq<u8> {
    Seq::new(n as nat, |i: int| 32u8)
}

/// Number of terminal columns one glyph pixel takes at horizontal scale
/// `width`: the scale itself, and never less than one.
pub open spec fn cell_columns(width: int) -> int {
    if width < 1 {
        1
    } else {
        width
    }
}

/// One painted pixel: the colour escape followed by its blank cells.
pub open spec fn cell(paint: Paint, width: int) -> Seq<u8> {
    paint_escape(paint) + blanks(cell_columns(width))
}

/// Whether the pixel in row `y`, column `column` of a glyph `width` pixels
/// wide is lit in `mask`.
pub open spec fn pixel_lit(mask: u64, width: int, y: int, column: int) -> bool {
    let bit = width * (y + 1) - 1 - column;
    0 <= bit < 64 && (mask >> (bit as u64)) & 1 == 1
}

/// The paint of a pixel: the foreground colour if lit, the default if not.
pub open spec fn pixel_paint(lit: bool, color: Color8) -> Paint {
    Paint { color: if lit { Color::C8(color) } else { Color::Reset }, background: CHANNEL }
}

/// The unlit paint that separates two glyphs.
pub open spec fn gap_paint() -> Paint {
    Paint { color: Color::Reset, background: CHANNEL }
}

/// The first `columns` painted pixels of row `y` of one glyph.
pub open spec fn glyph_columns(
    mask: u64,
    glyph_width: int,
    y: int,
    columns: int,
    color: Color8,
    scale: int,
) -> Seq<u8>
    decreases columns,
{
    if columns <= 0 {
        Seq::empty()
    } else {
        glyph_columns(mask, glyph_width, y, columns - 1, color, scale) + cell(
            pixel_paint(pixel_lit(mask, glyph_width, y, columns - 1), color),
            scale,
        )
    }
}

/// Row `y` of the glyph of `symbol`, followed by one unlit column.
pub open spec fn glyph_row(font: int, symbol: int, y: int, color: Color8, scale: int) -> Seq<u8> {
    glyph_columns(glyph_mask(font, symbol), font_width(font), y, font_width(font), color, scale)
        + cell(gap_paint(), scale)
}

/// Row `y` of every glyph of `symbols`, left to right.
pub open spec fn line(font: int, symbols: Seq<usize>, y: int, color: Color8, scale: int) -> Seq<
    u8,
>
    decreases symbols.len(),
{
    if symbols.len() == 0 {
        Seq::empty()
    } else {
        line(font, symbols.drop_last(), y, color, scale) + glyph_row(
            font,
            symbols.last() as int,
            y,
            color,
            scale,
        )
    }
}

/// `content` written on `count` consecutive terminal rows starting at row
/// `y`, each time after moving the cursor to column `x`.
pub open spec fn repeated(x: int, y: int, count: int, content: Seq<u8>) -> Seq<u8>
    decreases count,
{
    if count <= 0 {
        Seq::empty()
    } else {
        repeated(x, y, count - 1, content) + move_escape(x, y + count - 1) + content
    }
}

/// The first `rows` glyph rows of a frame.
pub open spec fn frame_rows(symbols: Seq<usize>, config: DrawConfig, rows: int) -> Seq<u8>
    decreases rows,
{
    if rows <= 0 {
        Seq::empty()
    } else {
        frame_rows(symbols, config, rows - 1) + repeated(
            config.x as int,
            config.y + (rows - 1) * config.height,
            config.height as int,
            line(config.font as int, symbols, rows - 1, config.color, config.width as int),
        )
    }
}

/// Everything one call of `show_time` emits: every glyph row, top to bottom,
/// each written on as many terminal rows as the vertical scale says.
pub open spec fn frame(symbols: Seq<usize>, config: DrawConfig) -> Seq<u8> {
    frame_rows(symbols, config, font_height(config.font as int))
}

/// The bytes that clear the whole screen: `ESC [ 2 J`.
pub open spec fn clear_all() -> Seq<u8> {
    seq![ESC, 91u8, 50u8, 74u8]
}

/// The bytes that hide the cursor: `ESC [ ? 25 l`.
pub open spec fn hide_cursor() -> Seq<u8> {
    seq![ESC, 91u8, 63u8, 50u8, 53u8, 108u8]
}

/// The bytes that show the cursor: `ESC [ ? 25 h`.
pub open spec fn show_cursor() -> Seq<u8> {
    seq![ESC, 91u8, 63u8, 50u8, 53u8, 104u8]
}

/// Whether every entry of `symbols` names a glyph.
pub open spec fn symbols_valid(symbols: Seq<usize>) -> bool {
    forall|i: int| 0 <= i < symbols.len() ==> symbols[i] < SYMBOL_COUNT
}

/// Appends the screen clear to `out`.
pub fn write_clear_all(out: &mut Vec<u8>)
    ensures
        final(out)@ == old(out)@ + clear_all(),
{
    out.push(ESC);
    out.push(91u8);
    out.push(50u8);
    out.push(74u8);
    assert(out@ =~= old(out)@ + clear_all());
}

/// Appends the cursor's hide (`visible` false) or show (`visible` true)
/// sequence to `out`.
pub fn write_cursor(out: &mut Vec<u8>, visible: bool)
    ensures
        final(out)@ == old(out)@ + if visible {
            show_cursor()
        } else {
            hide_cursor()
        },
{
    out.push(ESC);
    out.push(91u8);
    out.push(63u8);
    out.push(50u8);
    out.push(53u8);
    out.push(if visible { 104u8 } else { 108u8 });
    assert(out@ =~= old(out)@ + if visible {
        show_cursor()
    } else {
        hide_cursor()
    });
}

/// Whether every entry of `symbols` names a glyph.
pub fn all_valid(symbols: &Vec<usize>) -> (valid: bool)
    ensures
        valid == symbols_valid(symbols@),
{
    let mut i: usize = 0;
    while i < symbols.len()
        invariant
            i <= symbols.len(),
            forall|j: int| 0 <= j < i ==> symbols@[j] < SYMBOL_COUNT,
        decreases symbols.len() - i,
    {
        if symbols[i] >= SYMBOL_COUNT {
            return false;
        }
        i += 1;
    }
    true
}

/// The colour a text names: a whole number from 0 to 255.
pub open spec fn color_of(s: Seq<char>) -> Option<Color8> {
    match unsigned_value(s, 255) {
        Some(v) => Some(Color8(v as u8)),
        None => None,
    }
}

impl Color8 {
    /// Reads a palette index. Anything but a whole number from 0 to 255 is
    /// turned down with the message `Invalid color ` and the text itself.
    pub fn from_str(s: &str) -> (r: Result<Color8, String>)
        ensures
            r.is_ok() <==> color_of(s@).is_some(),
            r matches Ok(c) ==> color_of(s@) == Some(c),
            r matches Err(message) ==> message@ == "Invalid color "@ + s@,
    {
        match parse_unsigned(s, 255) {
            Some(v) => Ok(Color8(v as u8)),
            None => {
                let mut message = String::from_str("Invalid color ");
                message.append(s);
                Err(message)
            },
        }
    }
}

impl core::str::FromStr for Color8 {
    type Err = String;

    /// Reads a palette index, as the inherent `from_str` does: anything but
    /// a whole number from 0 to 255 is turned down with the message
    /// `Invalid color ` and the text itself.
    fn from_str(s: &str) -> (r: Result<Self, String>)
        ensures
            r.is_ok() <==> color_of(s@).is_some(),
            r matches Ok(c) ==> color_of(s@) == Some(c),
            r matches Err(message) ==> message@ == "Invalid color "@ + s@,
    {
        Color8::from_str(s)
    }
}

impl Paint {
    /// Appends this paint's escape sequence to `out`.
    pub fn write_to(&self, out: &mut Vec<u8>)
        ensures
            final(out)@ == old(out)@ + paint_escape(*self),
    {
        out.push(ESC);
        out.push(91u8);
        match self.color {
            Color::C8(c) => {
                push_decimal(out, self.background as u128);
                out.push(59u8);
                out.push(53u8);
                out.push(59u8);
                push_decimal(out, c.0 as u128);
            },
            Color::Reset => {
                push_decimal(out, self.background as u128 + 1);
            },
        }
        out.push(109u8);
        assert(out@ =~= old(out)@ + paint_escape(*self));
    }
}

/// Appends the cursor move to column `x`, row `y` to `out`.
pub fn write_move(out: &mut Vec<u8>, x: u16, y: u64)
    ensures
        final(out)@ == old(out)@ + move_escape(x as int, y as int),
{
    out.push(ESC);
    out.push(91u8);
    push_decimal(out, y as u128 + 1);
    out.push(59u8);
    push_decimal(out, x as u128 + 1);
    out.push(72u8);
    assert(out@ =~= old(out)@ + move_escape(x as int, y as int));
}

impl DrawConfig {
    /// A configuration with exactly the given fields.
    pub fn new(width: u16, height: u16, x: u16, y: u16, font: usize, color: Color8) -> (c: Self)
        ensures
            c.width == width,
            c.height == height,
            c.x == x,
            c.y == y,
            c.font == font,
            c.color == color,
    {
        Self { width, height, x, y, font, color }
    }
}

/// The line buffer: one terminal row's worth of painted cells.
pub struct Draw {
    buffer: Vec<u8>,
}

impl View for Draw {
    type V = Seq<u8>;

    /// The bytes the buffer holds.
    closed spec fn view(&self) -> Seq<u8> {
        self.buffer@
    }
}

/// Shifting a one-bit mask right by one moves it to the next lower bit.
proof fn lemma_mask_step(n: u64)
    requires
        1 <= n < 64,
    ensures
        (1u64 << n) >> 1 == 1u64 << ((n - 1) as u64),
{
    assert((1u64 << n) >> 1 == 1u64 << ((n - 1) as u64)) by (bit_vector)
        requires
            1 <= n < 64,
    ;
}

/// Testing a glyph against the one-bit mask of bit `n` reads bit `n`.
proof fn lemma_mask_test(glyph: u64, n: u64)
    requires
        n < 64,
    ensures
        ((1u64 << n) & glyph > 0) == ((glyph >> n) & 1 == 1),
{
    assert(((1u64 << n) & glyph > 0) == ((glyph >> n) & 1 == 1)) by (bit_vector)
        requires
            n < 64,
    ;
}

impl Draw {
    /// An empty line buffer.
    pub fn new() -> (d: Self)
        ensures
            d@ == Seq::<u8>::empty(),
    {
        Self { buffer: Vec::new() }
    }

    /// The bytes currently buffered.
    pub fn contents(&self) -> (bytes: &Vec<u8>)
        ensures
            bytes@ == self@,
    {
        &self.buffer
    }

    /// Empties the buffer.
    pub fn clear(&mut self)
        ensures
            final(self)@ == Seq::<u8>::empty(),
    {
        self.buffer.clear();
    }

    /// Appends one painted pixel: the escape of `color` and the blank cells
    /// of horizontal scale `width`.
    pub fn write_buffer(&mut self, width: u16, color: Paint)
        ensures
            final(self)@ == old(self)@ + cell(color, width as int),
    {
        color.write_to(&mut self.buffer);
        let ghost painted = self.buffer@;
        let columns: u16 = if width < 1 { 1 } else { width };
        let mut i: u16 = 0;
        while i < columns
            invariant
                i <= columns,
                self.buffer@ == painted + blanks(i as int),
            decreases columns - i,
        {
            self.buffer.push(32u8);
            i += 1;
            assert(self.buffer@ =~= painted + blanks(i as int));
        }
        assert(self.buffer@ =~= old(self)@ + cell(color, width as int));
    }

    /// Paints row `y` of one glyph: for each of its `glyph_width` columns a
    /// cell in `color` if the pixel is lit in `mask` and an unlit cell if
    /// not, then one unlit cell that separates it from the next glyph. The
    /// row must lie within the 64 bits of a mask.
    pub fn paint_glyph(&mut self, mask: u64, glyph_width: u16, y: u16, color: Color8, scale: u16)
        requires
            glyph_width * (y + 1) <= 64,
        ensures
            final(self)@ == old(self)@ + glyph_columns(
                mask,
                glyph_width as int,
                y as int,
                glyph_width as int,
                color,
                scale as int,
            ) + cell(gap_paint(), scale as int),
    {
        let top: u64 = glyph_width as u64 * (y as u64 + 1);
        assert(top >= glyph_width) by (nonlinear_arith)
            requires
                top == glyph_width * (y + 1),
        ;
        let mut probe: u64 = if glyph_width > 0 {
            1u64 << (top - 1)
        } else {
            0
        };
        let mut column: u16 = 0;
        while column < glyph_width
            invariant
                column <= glyph_width <= top <= 64,
                top == glyph_width * (y + 1),
                column < glyph_width ==> probe == 1u64 << ((top - 1 - column) as u64),
                self@ == old(self)@ + glyph_columns(
                    mask,
                    glyph_width as int,
                    y as int,
                    column as int,
                    color,
                    scale as int,
                ),
            decreases glyph_width - column,
        {
            proof {
                lemma_mask_test(mask, (top - 1 - column) as u64);
                if column + 1 < glyph_width {
                    lemma_mask_step((top - 1 - column) as u64);
                }
            }
            let lit = probe & mask > 0;
            assert(lit == pixel_lit(mask, glyph_width as int, y as int, column as int));
            self.write_buffer(
                scale,
                Paint {
                    color: if lit {
                        Color::C8(color)
                    } else {
                        Color::Reset
                    },
                    background: CHANNEL,
                },
            );
            probe = probe >> 1;
            column += 1;
            assert(self@ =~= old(self)@ + glyph_columns(
                mask,
                glyph_width as int,
                y as int,
                column as int,
                color,
                scale as int,
            ));
        }
        self.write_buffer(scale, Paint { color: Color::Reset, background: CHANNEL });
    }

    /// Rebuilds the buffer as row `y` of every glyph of `d`, left to right.
    pub fn paint_line(&mut self, d: &Vec<usize>, y: u16, config: &DrawConfig)
        requires
            config.font < FONT_COUNT,
            symbols_valid(d@),
            y < font_height(config.font as int),
        ensures
            final(self)@ == line(
                config.font as int,
                d@,
                y as int,
                config.color,
                config.width as int,
            ),
    {
        let f = Font::get(config.font);
        let glyph_width: u16 = f.width();
        self.buffer.clear();
        let mut k: usize = 0;
        while k < d.len()
            invariant
                k <= d.len(),
                f.wf(),
                f.spec_index() == config.font,
                glyph_width == font_width(config.font as int),
                symbols_valid(d@),
                y < 7,
                self@ == line(
                    config.font as int,
                    d@.take(k as int),
                    y as int,
                    config.color,
                    config.width as int,
                ),
            decreases d.len() - k,
        {
            let symbol: usize = d[k];
            let mask: u64 = f.digit(symbol);
            self.paint_glyph(mask, glyph_width, y, config.color, config.width);
            k += 1;
            proof {
                let shorter = d@.take(k as int);
                assert(shorter.drop_last() =~= d@.take(k - 1));
                assert(shorter.last() == symbol);
            }
        }
        assert(d@.take(k as int) =~= d@);
    }

    /// Appends the buffered row to `out` once for each of `height` terminal
    /// rows from row `y` down, each time after a cursor move to column `x`.
    pub fn render_buffer(&self, x: u16, y: u32, height: u16, out: &mut Vec<u8>)
        ensures
            final(out)@ == old(out)@ + repeated(x as int, y as int, height as int, self@),
    {
        let mut i: u16 = 0;
        while i < height
            invariant
                i <= height,
                out@ == old(out)@ + repeated(x as int, y as int, i as int, self@),
            decreases height - i,
        {
            write_move(out, x, y as u64 + i as u64);
            out.extend_from_slice(self.buffer.as_slice());
            i += 1;
            assert(out@ =~= old(out)@ + repeated(x as int, y as int, i as int, self@));
        }
    }

    /// Appends one whole frame to `out`: for every glyph row of the font, top
    /// to bottom, the painted row of all of `d`, written on `config.height`
    /// consecutive terminal rows starting at row
    /// `config.y + row * config.height`, column `config.x`.
    /// The buffer is left holding the last painted row.
    pub fn show_time(&mut self, d: &Vec<usize>, config: &DrawConfig, out: &mut Vec<u8>)
        requires
            config.font < FONT_COUNT,
            symbols_valid(d@),
        ensures
            final(out)@ == old(out)@ + frame(d@, *config),
            final(self)@ == line(
                config.font as int,
                d@,
                font_height(config.font as int) - 1,
                config.color,
                config.width as int,
            ),
    {
        let f = Font::get(config.font);
        let rows: u16 = f.height();
        let mut y: u16 = 0;
        while y < rows
            invariant
                y <= rows,
                rows == font_height(config.font as int),
                config.font < FONT_COUNT,
                symbols_valid(d@),
                out@ == old(out)@ + frame_rows(d@, *config, y as int),
                y > 0 ==> self@ == line(
                    config.font as int,
                    d@,
                    y - 1,
                    config.color,
                    config.width as int,
                ),
            decreases rows - y,
        {
            self.paint_line(d, y, config);
            assert(y * config.height <= 6 * 65535) by (nonlinear_arith)
                requires
                    y <= 6,
                    config.height <= 65535,
            ;
            let top: u32 = config.y as u32 + y as u32 * config.height as u32;
            self.render_buffer(config.x, top, config.height, out);
            y += 1;
            assert(out@ =~= old(out)@ + frame_rows(d@, *config, y as int));
        }
    }
}

/// Painting is repeatable: what a paint appends is a function of the glyph,
/// the row, the colour and the scale alone. Painted twice into buffers that
/// hold the same bytes, a glyph row leaves them holding the same bytes; and
/// whatever a buffer held before, the bytes appended are the same.
pub proof fn lemma_paint_repeatable(
    first: Seq<u8>,
    second: Seq<u8>,
    font: int,
    symbol: int,
    y: int,
    color: Color8,
    scale: int,
)
    ensures
        first == second ==> first + glyph_row(font, symbol, y, color, scale) == second + glyph_row(
            font,
            symbol,
            y,
            color,
            scale,
        ),
        (first + glyph_row(font, symbol, y, color, scale)).skip(first.len() as int) == (second
            + glyph_row(font, symbol, y, color, scale)).skip(second.len() as int),
        (first + glyph_row(font, symbol, y, color, scale)).skip(first.len() as int) == glyph_row(
            font,
            symbol,
            y,
            color,
            scale,
        ),
{
    let row = glyph_row(font, symbol, y, color, scale);
    assert((first + row).skip(first.len() as int) =~= row);
    assert((second + row).skip(second.len() as int) =~= row);
}

} // verus!
