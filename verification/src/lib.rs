//! A large-digit terminal clock: bitmap fonts, the glyph painter that turns
//! them into coloured terminal cells, the layout arithmetic, the time and
//! countdown snapshots, and the per-tick decisions of the render loop.

pub mod clock;
pub mod config;
pub mod countdown;
pub mod display;
pub mod font;
pub mod layout;
pub mod text;
