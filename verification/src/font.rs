//! The font table: fixed bitmap glyphs for the digits and the few
//! punctuation symbols a clock face needs, in two sizes.

use crate::text::{parse_unsigned, unsigned_value};
use vstd::prelude::*;

verus! {

/// Number of selectable fonts.
pub const FONT_COUNT: usize = 2;

/// Number of symbols every font defines.
pub const SYMBOL_COUNT: usize = 15;

/// Symbol index of the colon separator.
pub const COLON: usize = 10;

/// Symbol index of the blank glyph.
pub const SPACE: usize = 11;

/// Symbol index of the letter A.
pub const A: usize = 12;

/// Symbol index of the letter P.
pub const P: usize = 13;

/// Symbol index of the letter M.
pub const M: usize = 14;

/// Width in pixels of the font with the given index.
pub open spec fn font_width(font: int) -> int {
    if font == 0 {
        5
    } else {
        3
    }
}

/// Height in pixels of the font with the given index.
pub open spec fn font_height(font: int) -> int {
    if font == 0 {
        7
    } else {
        5
    }
}

/// Bit-mask of a glyph: row `y` occupies bits `[y * width, (y + 1) * width)`,
/// leftmost pixel in the most significant bit of the row.
pub open spec fn glyph_mask(font: int, symbol: int) -> u64 {
    if font == 0 {
        large_glyph_mask(symbol)
    } else {
        small_glyph_mask(symbol)
    }
}

/// Glyphs of the 5x7 font.
pub open spec fn large_glyph_mask(symbol: int) -> u64 {
    if symbol == 0 {
        0x7e318c63f
    } else if symbol == 1 {
        0x108421084
    } else if symbol == 2 {
        0x7e10f843f
    } else if symbol == 3 {
        0x7c21f843f
    } else if symbol == 4 {
        0x0421fc631
    } else if symbol == 5 {
        0x7c21fc21f
    } else if symbol == 6 {
        0x7e31fc21f
    } else if symbol == 7 {
        0x04210843f
    } else if symbol == 8 {
        0x7e31fc63f
    } else if symbol == 9 {
        0x7c21fc63f
    } else if symbol == 10 {
        0x000401000
    } else if symbol == 11 {
        0
    } else if symbol == 12 {
        0x4631fc62e
    } else if symbol == 13 {
        0x4210f463e
    } else {
        0x4631ad771
    }
}

/// Glyphs of the 3x5 font.
pub open spec fn small_glyph_mask(symbol: int) -> u64 {
    if symbol == 0 {
        0x7b6f
    } else if symbol == 1 {
        0x2492
    } else if symbol == 2 {
        0x79cf
    } else if symbol == 3 {
        0x73cf
    } else if symbol == 4 {
        0x13ed
    } else if symbol == 5 {
        0x73e7
    } else if symbol == 6 {
        0x7be7
    } else if symbol == 7 {
        0x124f
    } else if symbol == 8 {
        0x7bef
    } else if symbol == 9 {
        0x73ef
    } else if symbol == 10 {
        0x0410
    } else if symbol == 11 {
        0
    } else if symbol == 12 {
        0x5bea
    } else if symbol == 13 {
        0x49ae
    } else {
        0x5bfd
    }
}

/// One more than the largest bit-mask a glyph of the font can have: two to
/// the power of its width times its height.
pub open spec fn glyph_limit(font: int) -> int {
    if font == 0 {
        0x8_0000_0000
    } else {
        0x8000
    }
}

/// Every glyph fits its font: no bit is set beyond its last row.
pub proof fn lemma_glyph_fits(font: int, symbol: int)
    ensures
        glyph_mask(font, symbol) < glyph_limit(font),
        font_width(font) * font_height(font) < 64,
{
}

/// The font a text names: a whole number below the number of fonts.
pub open spec fn font_of(s: Seq<char>) -> Option<usize> {
    match unsigned_value(s, (FONT_COUNT - 1) as nat) {
        Some(v) => Some(v as usize),
        None => None,
    }
}

/// Reads a font index. Anything but the index of a font is turned down with
/// the message `Invalid font ` and the text itself.
pub fn font_in_range(s: &str) -> (r: Result<usize, String>)
    ensures
        r.is_ok() <==> font_of(s@).is_some(),
        r matches Ok(font) ==> font_of(s@) == Some(font) && font < FONT_COUNT,
        r matches Err(message) ==> message@ == "Invalid font "@ + s@,
{
    match parse_unsigned(s, (FONT_COUNT - 1) as u64) {
        Some(v) => Ok(v as usize),
        None => {
            let mut message = String::from_str("Invalid font ");
            message.append(s);
            Err(message)
        },
    }
}

/// One font: a pixel size and the index that selects its glyphs.
#[derive(Clone, Copy, Debug)]
pub struct Font {
    index: usize,
    width: u16,
    height: u16,
}

impl Font {
    /// A font value is well formed when it is one of the table's entries.
    pub closed spec fn wf(&self) -> bool {
        &&& self.index < FONT_COUNT
        &&& self.width == font_width(self.index as int)
        &&& self.height == font_height(self.index as int)
    }

    /// The table index this font was looked up with.
    pub closed spec fn spec_index(&self) -> int {
        self.index as int
    }

    /// Looks a font up by index.
    pub fn get(index: usize) -> (f: Font)
        requires
            index < FONT_COUNT,
        ensures
            f.wf(),
            f.spec_index() == index,
    {
        if index == 0 {
            Font { index, width: 5, height: 7 }
        } else {
            Font { index, width: 3, height: 5 }
        }
    }

    /// Glyph width in pixels.
    pub fn width(&self) -> (w: u16)
        requires
            self.wf(),
        ensures
            w == font_width(self.spec_index()),
            1 <= w <= 5,
    {
        self.width
    }

    /// Glyph height in pixels.
    pub fn height(&self) -> (h: u16)
        requires
            self.wf(),
        ensures
            h == font_height(self.spec_index()),
            1 <= h <= 7,
    {
        self.height
    }

    /// Bit-mask of the glyph for `symbol`.
    pub fn digit(&self, symbol: usize) -> (mask: u64)
        requires
            self.wf(),
            symbol < SYMBOL_COUNT,
        ensures
            mask == glyph_mask(self.spec_index(), symbol as int),
            mask < glyph_limit(self.spec_index()),
    {
        if self.index == 0 {
            match symbol {
                0 => 0x7e318c63f,
                1 => 0x108421084,
                2 => 0x7e10f843f,
                3 => 0x7c21f843f,
                4 => 0x0421fc631,
                5 => 0x7c21fc21f,
                6 => 0x7e31fc21f,
                7 => 0x04210843f,
                8 => 0x7e31fc63f,
                9 => 0x7c21fc63f,
                10 => 0x000401000,
                11 => 0,
                12 => 0x4631fc62e,
                13 => 0x4210f463e,
                _ => 0x4631ad771,
            }
        } else {
            match symbol {
                0 => 0x7b6f,
                1 => 0x2492,
                2 => 0x79cf,
                3 => 0x73cf,
                4 => 0x13ed,
                5 => 0x73e7,
                6 => 0x7be7,
                7 => 0x124f,
                8 => 0x7bef,
                9 => 0x73ef,
                10 => 0x0410,
                11 => 0,
                12 => 0x5bea,
                13 => 0x49ae,
                _ => 0x5bfd,
            }
        }
    }
}

} // verus!
