use termclock::display::{
    all_valid, write_clear_all, write_cursor, write_move, Color, Color8, Draw, DrawConfig, Paint,
};
use termclock::font::{font_in_range, Font, A, COLON, FONT_COUNT, M, P, SPACE, SYMBOL_COUNT};

const LIT: &str = "\x1B[48;5;3m  ";
const UNLIT: &str = "\x1B[49m  ";

fn row_of(pattern: &str) -> String {
    let mut s = String::new();
    for c in pattern.chars() {
        s.push_str(if c == '#' { LIT } else { UNLIT });
    }
    s.push_str(UNLIT);
    s
}

fn config(font: usize) -> DrawConfig {
    DrawConfig::new(2, 1, 0, 0, font, Color8(3))
}

#[test]
fn glyph_one_is_lit_in_the_centre_column_on_every_row() {
    let mut d = Draw::new();
    let digits = vec![1usize];
    for y in 0..7u16 {
        d.paint_line(&digits, y, &config(0));
        let got = String::from_utf8(d.contents().clone()).unwrap();
        assert_eq!(got, row_of("..#.."), "row {}", y);
    }
}

#[test]
fn painting_the_same_row_twice_gives_the_same_bytes() {
    let mut first = Draw::new();
    let mut second = Draw::new();
    let digits = vec![8usize, COLON, 3];
    first.paint_line(&digits, 3, &config(0));
    second.paint_line(&digits, 3, &config(0));
    second.paint_line(&digits, 3, &config(0));
    assert_eq!(first.contents(), second.contents());
}

#[test]
fn paint_glyph_appends_and_does_not_depend_on_what_was_there() {
    let f = Font::get(0);
    let mut d = Draw::new();
    d.paint_glyph(f.digit(7), f.width(), 0, Color8(3), 2);
    let once = d.contents().clone();
    d.paint_glyph(f.digit(7), f.width(), 0, Color8(3), 2);
    let twice = d.contents().clone();
    assert_eq!(twice.len(), 2 * once.len());
    assert_eq!(&twice[..once.len()], &once[..]);
    assert_eq!(&twice[once.len()..], &once[..]);
    assert_eq!(String::from_utf8(once).unwrap(), row_of("#####"));
}

#[test]
fn glyph_rows_of_seven_in_the_large_font() {
    let mut d = Draw::new();
    let digits = vec![7usize];
    let rows = ["#####", "....#", "....#", "....#", "....#", "....#", "....#"];
    for (y, pattern) in rows.iter().enumerate() {
        d.paint_line(&digits, y as u16, &config(0));
        assert_eq!(String::from_utf8(d.contents().clone()).unwrap(), row_of(pattern));
    }
}

#[test]
fn glyph_rows_of_four_in_the_small_font() {
    let mut d = Draw::new();
    let digits = vec![4usize];
    let rows = ["#.#", "#.#", "###", "..#", "..#"];
    for (y, pattern) in rows.iter().enumerate() {
        d.paint_line(&digits, y as u16, &config(1));
        assert_eq!(String::from_utf8(d.contents().clone()).unwrap(), row_of(pattern));
    }
}

#[test]
fn colon_and_space_glyphs() {
    let mut d = Draw::new();
    d.paint_line(&vec![COLON], 2, &config(0));
    assert_eq!(String::from_utf8(d.contents().clone()).unwrap(), row_of("..#.."));
    d.paint_line(&vec![COLON], 3, &config(0));
    assert_eq!(String::from_utf8(d.contents().clone()).unwrap(), row_of("....."));
    for y in 0..7u16 {
        d.paint_line(&vec![SPACE], y, &config(0));
        assert_eq!(String::from_utf8(d.contents().clone()).unwrap(), row_of("....."));
    }
}

#[test]
fn letters_first_rows() {
    let mut d = Draw::new();
    d.paint_line(&vec![A, P, M], 0, &config(0));
    let want = format!("{}{}{}", row_of(".###."), row_of("####."), row_of("#...#"));
    assert_eq!(String::from_utf8(d.contents().clone()).unwrap(), want);
}

#[test]
fn a_line_is_its_glyph_rows_left_to_right() {
    let mut d = Draw::new();
    d.paint_line(&vec![1usize, 2], 0, &config(0));
    let want = format!("{}{}", row_of("..#.."), row_of("#####"));
    assert_eq!(String::from_utf8(d.contents().clone()).unwrap(), want);
    d.paint_line(&Vec::new(), 0, &config(0));
    assert!(d.contents().is_empty());
}

#[test]
fn paint_escapes_are_bit_exact() {
    let mut out = Vec::new();
    Paint { color: Color::C8(Color8(3)), background: 48 }.write_to(&mut out);
    assert_eq!(out, b"\x1B[48;5;3m");
    out.clear();
    Paint { color: Color::Reset, background: 48 }.write_to(&mut out);
    assert_eq!(out, b"\x1B[49m");
    out.clear();
    Paint { color: Color::C8(Color8(255)), background: 38 }.write_to(&mut out);
    assert_eq!(out, b"\x1B[38;5;255m");
    out.clear();
    Paint { color: Color::C8(Color8(0)), background: 0 }.write_to(&mut out);
    assert_eq!(out, b"\x1B[0;5;0m");
    out.clear();
    Paint { color: Color::Reset, background: 255 }.write_to(&mut out);
    assert_eq!(out, b"\x1B[256m");
}

#[test]
fn cursor_moves_count_from_one() {
    let mut out = Vec::new();
    write_move(&mut out, 0, 0);
    assert_eq!(out, b"\x1B[1;1H");
    out.clear();
    write_move(&mut out, 4, 9);
    assert_eq!(out, b"\x1B[10;5H");
    out.clear();
    write_move(&mut out, 65535, 65535);
    assert_eq!(out, b"\x1B[65536;65536H");
    out.clear();
    write_move(&mut out, 0, u64::MAX);
    assert_eq!(out, b"\x1B[18446744073709551616;1H");
}

#[test]
fn screen_and_cursor_sequences_are_bit_exact() {
    let mut out = vec![b'x'];
    write_clear_all(&mut out);
    assert_eq!(out, b"x\x1B[2J");
    out.clear();
    write_cursor(&mut out, false);
    assert_eq!(out, b"\x1B[?25l");
    out.clear();
    write_cursor(&mut out, true);
    assert_eq!(out, b"\x1B[?25h");
}

#[test]
fn write_buffer_pads_to_the_scale() {
    let mut d = Draw::new();
    assert!(d.contents().is_empty());
    d.write_buffer(3, Paint { color: Color::Reset, background: 48 });
    assert_eq!(d.contents(), b"\x1B[49m   ");
    d.write_buffer(1, Paint { color: Color::C8(Color8(12)), background: 48 });
    assert_eq!(d.contents(), b"\x1B[49m   \x1B[48;5;12m ");
    d.clear();
    assert!(d.contents().is_empty());
}

#[test]
fn write_buffer_at_scale_zero_still_writes_one_blank() {
    let mut d = Draw::new();
    d.write_buffer(0, Paint { color: Color::Reset, background: 48 });
    assert_eq!(d.contents(), b"\x1B[49m ");
}

#[test]
fn render_buffer_repeats_the_row_once_per_terminal_row() {
    let mut d = Draw::new();
    d.write_buffer(1, Paint { color: Color::Reset, background: 48 });
    let mut out = Vec::new();
    d.render_buffer(2, 5, 3, &mut out);
    assert_eq!(out, b"\x1B[6;3H\x1B[49m \x1B[7;3H\x1B[49m \x1B[8;3H\x1B[49m ");
    out.clear();
    d.render_buffer(2, 5, 0, &mut out);
    assert!(out.is_empty());
}

#[test]
fn show_time_writes_every_row_top_to_bottom() {
    let mut d = Draw::new();
    let cfg = DrawConfig::new(2, 1, 10, 4, 0, Color8(3));
    let mut out = vec![b'>'];
    d.show_time(&vec![1usize], &cfg, &mut out);
    let mut want = String::from(">");
    for y in 0..7 {
        want.push_str(&format!("\x1B[{};{}H", 4 + y + 1, 10 + 1));
        want.push_str(&row_of("..#.."));
    }
    assert_eq!(String::from_utf8(out).unwrap(), want);
    assert_eq!(String::from_utf8(d.contents().clone()).unwrap(), row_of("..#.."));
}

#[test]
fn show_time_scales_rows_by_repeating_them() {
    let mut d = Draw::new();
    let cfg = DrawConfig::new(1, 2, 0, 3, 1, Color8(9));
    let mut out = Vec::new();
    d.show_time(&vec![0usize, 1], &cfg, &mut out);
    let lit = "\x1B[48;5;9m ";
    let unlit = "\x1B[49m ";
    let zero = ["###", "#.#", "#.#", "#.#", "###"];
    let one = [".#.", ".#.", ".#.", ".#.", ".#."];
    let mut want = String::new();
    for y in 0..5 {
        let mut row = String::new();
        for glyph in [zero[y], one[y]] {
            for c in glyph.chars() {
                row.push_str(if c == '#' { lit } else { unlit });
            }
            row.push_str(unlit);
        }
        for i in 0..2 {
            want.push_str(&format!("\x1B[{};1H", 3 + y * 2 + i + 1));
            want.push_str(&row);
        }
    }
    assert_eq!(String::from_utf8(out).unwrap(), want);
}

#[test]
fn show_time_does_not_wrap_large_positions() {
    let mut d = Draw::new();
    let cfg = DrawConfig::new(1, 65535, 65535, 65535, 1, Color8(1));
    let mut out = Vec::new();
    d.render_buffer(cfg.x, cfg.y as u32 + 4 * cfg.height as u32, 1, &mut out);
    assert_eq!(out, b"\x1B[327676;65536H");
}

#[test]
fn show_time_of_no_symbols_only_moves_the_cursor() {
    let mut d = Draw::new();
    let cfg = DrawConfig::new(2, 1, 0, 0, 1, Color8(3));
    let mut out = Vec::new();
    d.show_time(&Vec::new(), &cfg, &mut out);
    assert_eq!(out, b"\x1B[1;1H\x1B[2;1H\x1B[3;1H\x1B[4;1H\x1B[5;1H");
}

#[test]
fn draw_config_new_keeps_its_arguments() {
    let c = DrawConfig::new(2, 3, 4, 5, 1, Color8(200));
    assert_eq!((c.width, c.height, c.x, c.y, c.font, c.color.0), (2, 3, 4, 5, 1, 200));
}

#[test]
fn color_from_str_reads_palette_indices() {
    assert_eq!(Color8::from_str("3").unwrap().0, 3);
    assert_eq!(Color8::from_str("0").unwrap().0, 0);
    assert_eq!(Color8::from_str("255").unwrap().0, 255);
    assert_eq!(Color8::from_str("+7").unwrap().0, 7);
    assert_eq!(Color8::from_str("007").unwrap().0, 7);
    assert_eq!("42".parse::<Color8>().unwrap().0, 42);
}

#[test]
fn color_from_str_turns_the_rest_down() {
    for bad in ["", "256", "-1", " 3", "3 ", "red", "+", "1_0", "99999999999999999999999"] {
        assert_eq!(Color8::from_str(bad).unwrap_err(), format!("Invalid color {}", bad));
        assert_eq!(bad.parse::<u8>().is_err(), true);
    }
}

#[test]
fn parsing_a_color_reads_it_as_from_str_does() {
    for s in ["0", "3", "255", "+7", "007", "", "256", "-1", " 3", "red", "+"] {
        assert_eq!(s.parse::<Color8>(), Color8::from_str(s), "{:?}", s);
    }
    assert_eq!("12".parse::<Color8>(), Ok(Color8(12)));
    assert_eq!("256".parse::<Color8>(), Err(String::from("Invalid color 256")));
    assert_eq!("".parse::<Color8>(), Err(String::from("Invalid color ")));
}

#[test]
fn color_from_str_agrees_with_the_standard_reading() {
    for s in ["0", "9", "10", "255", "256", "+0", "+255", "+256", "-0", "0255", "２"] {
        assert_eq!(Color8::from_str(s).ok().map(|c| c.0), s.parse::<u8>().ok(), "{}", s);
    }
}

#[test]
fn font_in_range_accepts_the_two_fonts_only() {
    assert_eq!(FONT_COUNT, 2);
    assert_eq!(SYMBOL_COUNT, 15);
    assert_eq!(font_in_range("0"), Ok(0));
    assert_eq!(font_in_range("1"), Ok(1));
    assert_eq!(font_in_range("+1"), Ok(1));
    assert_eq!(font_in_range("2"), Err(String::from("Invalid font 2")));
    assert_eq!(font_in_range(""), Err(String::from("Invalid font ")));
    assert_eq!(font_in_range("-1"), Err(String::from("Invalid font -1")));
    assert_eq!(font_in_range("x"), Err(String::from("Invalid font x")));
}

#[test]
fn fonts_have_their_sizes() {
    let large = Font::get(0);
    assert_eq!((large.width(), large.height()), (5, 7));
    let small = Font::get(1);
    assert_eq!((small.width(), small.height()), (3, 5));
    assert_eq!(large.digit(1), 0x108421084);
    assert_eq!(small.digit(1), 0x2492);
    assert_eq!(large.digit(SPACE), 0);
    assert_eq!(small.digit(SPACE), 0);
    for symbol in 0..SYMBOL_COUNT {
        assert!(large.digit(symbol) < 1 << 35);
        assert!(small.digit(symbol) < 1 << 15);
    }
    assert_eq!((COLON, SPACE, A, P, M), (10, 11, 12, 13, 14));
}

#[test]
fn all_valid_finds_symbols_without_a_glyph() {
    assert!(all_valid(&vec![0, 9, 10, 14]));
    assert!(all_valid(&Vec::new()));
    assert!(!all_valid(&vec![0, 15]));
    assert!(!all_valid(&vec![usize::MAX]));
}

#[test]
fn a_glyph_of_all_64_bits_is_painted_to_its_last_row() {
    let mask: u64 = 0x8100_0000_0000_00A5;
    let mut d = Draw::new();
    d.paint_glyph(mask, 8, 7, Color8(3), 2);
    assert_eq!(String::from_utf8(d.contents().clone()).unwrap(), row_of("#......#"));
    d.clear();
    d.paint_glyph(mask, 8, 0, Color8(3), 2);
    assert_eq!(String::from_utf8(d.contents().clone()).unwrap(), row_of("#.#..#.#"));
    d.clear();
    d.paint_glyph(mask, 8, 3, Color8(3), 2);
    assert_eq!(String::from_utf8(d.contents().clone()).unwrap(), row_of("........"));
    d.clear();
    d.paint_glyph(u64::MAX, 64, 0, Color8(3), 2);
    assert_eq!(String::from_utf8(d.contents().clone()).unwrap(), row_of(&"#".repeat(64)));
    d.clear();
    d.paint_glyph(1u64 << 63, 64, 0, Color8(3), 2);
    let want = format!("#{}", ".".repeat(63));
    assert_eq!(String::from_utf8(d.contents().clone()).unwrap(), row_of(&want));
    d.clear();
    d.paint_glyph(u64::MAX, 0, 9, Color8(3), 2);
    assert_eq!(String::from_utf8(d.contents().clone()).unwrap(), row_of(""));
}
