use vterm::geom::{vterm_pos_cmp, vterm_rect_contains, vterm_rect_move, VTermPos, VTermRect};
use vterm::output::{VTermKey, VTermModifier};
use vterm::parser::{Parser, VTermEvent};
use vterm::pen::{PenColor, VTermAttr, VTermValue, VTermPen};
use vterm::screen::VTermDamageSize;
use vterm::term::VTerm;

fn no_mods() -> VTermModifier {
    VTermModifier { shift: false, alt: false, ctrl: false }
}

fn events_repr(evs: &Vec<VTermEvent>) -> Vec<String> {
    let mut out = Vec::new();
    for e in evs {
        out.push(format!("{:?}", e));
    }
    out
}

#[test]
fn parser_resumability_all_splits() {
    let stream: Vec<u8> = b"ab\x1b[1;2:3;31mHi\x1b]0;title\x07\ncd\x1b[?25l".to_vec();
    let mut whole = Parser::new(false);
    let expected = events_repr(&whole.feed(&stream));
    for cut in 0..=stream.len() {
        let mut p = Parser::new(false);
        let mut got = Vec::new();
        got.extend(p.feed(&stream[..cut]));
        got.extend(p.feed(&stream[cut..]));
        assert_eq!(events_repr(&got), expected, "split at {}", cut);
    }
}

#[test]
fn parser_resumability_utf8_split() {
    // A three-byte codepoint split across chunks decodes identically.
    let stream: Vec<u8> = "x\u{20AC}y".as_bytes().to_vec();
    let mut whole = Parser::new(true);
    let expected = events_repr(&whole.feed(&stream));
    for cut in 0..=stream.len() {
        let mut p = Parser::new(true);
        let mut got = Vec::new();
        got.extend(p.feed(&stream[..cut]));
        got.extend(p.feed(&stream[cut..]));
        assert_eq!(events_repr(&got), expected, "split at {}", cut);
    }
}

#[test]
fn parser_csi_params_and_subparams() {
    let mut p = Parser::new(false);
    let evs = p.feed(b"\x1b[1;2:3:4;5a");
    assert_eq!(evs.len(), 1);
    match &evs[0] {
        VTermEvent::Csi { leader, params, inters, final_byte } => {
            assert_eq!(leader.len(), 0);
            assert_eq!(inters.len(), 0);
            assert_eq!(*final_byte, b'a');
            let vals: Vec<(u32, bool)> = params.iter().map(|q| (q.value, q.more)).collect();
            assert_eq!(vals, vec![(1, false), (2, true), (3, true), (4, false), (5, false)]);
        },
        other => panic!("expected CSI, got {:?}", other),
    }
}

#[test]
fn parser_osc_bel_and_st() {
    let mut p = Parser::new(false);
    let evs = p.feed(b"\x1b]2;hello\x07\x1b]2;world\x1b\\");
    assert_eq!(evs.len(), 2);
    match &evs[0] {
        VTermEvent::Osc { payload } => assert_eq!(payload, b"2;hello"),
        other => panic!("expected OSC, got {:?}", other),
    }
    match &evs[1] {
        VTermEvent::Osc { payload } => assert_eq!(payload, b"2;world"),
        other => panic!("expected OSC, got {:?}", other),
    }
}

#[test]
fn rect_contains_each_axis() {
    let r = VTermRect { start_row: 1, end_row: 3, start_col: 5, end_col: 9 };
    assert!(vterm_rect_contains(r, VTermPos { row: 1, col: 5 }));
    assert!(vterm_rect_contains(r, VTermPos { row: 2, col: 8 }));
    // Half-open upper bounds.
    assert!(!vterm_rect_contains(r, VTermPos { row: 3, col: 5 }));
    assert!(!vterm_rect_contains(r, VTermPos { row: 1, col: 9 }));
    // A row inside the column range but outside the row range, and the
    // other way round: catches any axis swap.
    assert!(!vterm_rect_contains(r, VTermPos { row: 0, col: 6 }));
    assert!(!vterm_rect_contains(r, VTermPos { row: 2, col: 1 }));
    // A column that would pass if checked against the row bounds.
    assert!(!vterm_rect_contains(r, VTermPos { row: 2, col: 2 }));
}

#[test]
fn pos_cmp_row_major() {
    let a = VTermPos { row: 1, col: 7 };
    let b = VTermPos { row: 2, col: 0 };
    assert!(vterm_pos_cmp(a, b) < 0);
    assert!(vterm_pos_cmp(b, a) > 0);
    assert_eq!(vterm_pos_cmp(a, a), 0);
    assert!(vterm_pos_cmp(VTermPos { row: 1, col: 1 }, VTermPos { row: 1, col: 4 }) < 0);
}

#[test]
fn rect_move_translates() {
    let mut r = VTermRect { start_row: 1, end_row: 3, start_col: 5, end_col: 9 };
    vterm_rect_move(&mut r, 2, -5);
    assert_eq!(r.start_row, 3);
    assert_eq!(r.end_row, 5);
    assert_eq!(r.start_col, 0);
    assert_eq!(r.end_col, 4);
}

#[test]
fn cursor_stays_in_bounds() {
    let mut t = VTerm::new(5, 10, 0);
    // A barrage of motions, many deliberately out of range.
    t.write(b"\x1b[999;999H\x1b[99A\x1b[99B\x1b[99C\x1b[99D\x1b[0;0H\x1b[99E\x1b[99F\x08\x08\r\n\n\n\n\n\n\n\t\t\t");
    let pos = t.screen().state().get_cursorpos();
    assert!(pos.row >= 0 && pos.row < 5);
    assert!(pos.col >= 0 && pos.col < 10);
}

#[test]
fn cursor_position_sequences() {
    let mut t = VTerm::new(24, 80, 0);
    t.write(b"\x1b[4;6H");
    let pos = t.screen().state().get_cursorpos();
    assert_eq!((pos.row, pos.col), (3, 5));
    t.write(b"\x1b[2A\x1b[3C");
    let pos = t.screen().state().get_cursorpos();
    assert_eq!((pos.row, pos.col), (1, 8));
}

#[test]
fn sgr_reset_idempotent() {
    let mut once = VTerm::new(4, 8, 0);
    once.write(b"\x1b[1;4;31;42m\x1b[0m");
    let mut twice = VTerm::new(4, 8, 0);
    twice.write(b"\x1b[1;4;31;42m\x1b[0m\x1b[0m");
    for attr in [
        VTermAttr::Bold,
        VTermAttr::Underline,
        VTermAttr::Italic,
        VTermAttr::Blink,
        VTermAttr::Reverse,
        VTermAttr::Strike,
        VTermAttr::Font,
        VTermAttr::Foreground,
        VTermAttr::Background,
    ] {
        let a = format!("{:?}", once.screen().state().get_penattr(attr));
        let b = format!("{:?}", twice.screen().state().get_penattr(attr));
        assert_eq!(a, b);
    }
    // And the result is the documented default pen.
    match once.screen().state().get_penattr(VTermAttr::Bold) {
        VTermValue::Bool { v } => assert!(!v),
        other => panic!("unexpected {:?}", other),
    }
    match once.screen().state().get_penattr(VTermAttr::Foreground) {
        VTermValue::Color { v } => assert_eq!(v, PenColor::Default),
        other => panic!("unexpected {:?}", other),
    }
}

#[test]
fn sgr_extended_colors() {
    let mut t = VTerm::new(4, 8, 0);
    t.write(b"\x1b[38;5;196m\x1b[48;2;10;20;30m");
    match t.screen().state().get_penattr(VTermAttr::Foreground) {
        VTermValue::Color { v } => assert_eq!(v, PenColor::Idx { idx: 196 }),
        other => panic!("unexpected {:?}", other),
    }
    match t.screen().state().get_penattr(VTermAttr::Background) {
        VTermValue::Color { v } => match v {
            PenColor::Rgb { color } => {
                assert_eq!((color.red, color.green, color.blue), (10, 20, 30));
            },
            other => panic!("unexpected {:?}", other),
        },
        other => panic!("unexpected {:?}", other),
    }
}

fn cell_char(t: &VTerm, row: i32, col: i32) -> Option<u32> {
    let c = t.screen().get_cell(VTermPos { row, col })?;
    if c.num_chars == 0 {
        None
    } else {
        Some(c.chars[0])
    }
}

#[test]
fn scroll_up_then_down_restores() {
    // 4 rows, scrollback disabled.  Fill with distinct letters.
    let mut t = VTerm::new(4, 4, 0);
    t.write(b"A\r\nB\r\nC\r\nD");
    assert_eq!(cell_char(&t, 0, 0), Some(b'A' as u32));
    assert_eq!(cell_char(&t, 3, 0), Some(b'D' as u32));
    // Scroll the full region up 2 then down 2.
    t.write(b"\x1b[2S\x1b[2T");
    // The two rows nearest the top edge are erased; the rest are restored.
    assert_eq!(cell_char(&t, 0, 0), None);
    assert_eq!(cell_char(&t, 1, 0), None);
    assert_eq!(cell_char(&t, 2, 0), Some(b'C' as u32));
    assert_eq!(cell_char(&t, 3, 0), Some(b'D' as u32));
}

#[test]
fn scrollback_push_and_pop() {
    let mut t = VTerm::new(3, 4, 10);
    t.write(b"A\r\nB\r\nC");
    // Scroll up: row A is evicted into scrollback.
    t.write(b"\x1b[1S");
    assert_eq!(cell_char(&t, 0, 0), Some(b'B' as u32));
    // Scroll back down: row A returns from scrollback.
    t.write(b"\x1b[1T");
    assert_eq!(cell_char(&t, 0, 0), Some(b'A' as u32));
    assert_eq!(cell_char(&t, 1, 0), Some(b'B' as u32));
}

#[test]
fn damage_screen_merge_single_event() {
    let mut t = VTerm::new(6, 10, 0);
    t.set_damage_merge(VTermDamageSize::Screen);
    let _ = t.flush_damage();
    t.write(b"abc\x1b[3;3Hdef\x1b[1;1K");
    let dmg = t.flush_damage();
    assert_eq!(dmg.len(), 1);
    let r = dmg[0];
    assert_eq!((r.start_row, r.end_row, r.start_col, r.end_col), (0, 6, 0, 10));
    // After the flush nothing is pending.
    assert_eq!(t.flush_damage().len(), 0);
}

#[test]
fn damage_cell_merge_exact_rects() {
    let mut t = VTerm::new(6, 10, 0);
    t.set_damage_merge(VTermDamageSize::Cell);
    let _ = t.flush_damage();
    // Three non-overlapping single-cell writes (cursor moves don't damage).
    t.write(b"a\x1b[3;3Hb\x1b[5;7Hc");
    let dmg = t.flush_damage();
    assert_eq!(dmg.len(), 3);
    let cells: Vec<(i32, i32)> = dmg.iter().map(|r| (r.start_row, r.start_col)).collect();
    assert_eq!(cells, vec![(0, 0), (2, 2), (4, 6)]);
    for r in dmg {
        assert_eq!(r.end_row, r.start_row + 1);
        assert_eq!(r.end_col, r.start_col + 1);
    }
}

#[test]
fn end_to_end_clear_home_red_hi() {
    let mut t = VTerm::new(24, 80, 0);
    t.write(b"junk to be cleared");
    t.write(b"\x1b[2J\x1b[H\x1b[31mHi\x1b[0m");
    // Screen cleared except the two written cells.
    assert_eq!(cell_char(&t, 5, 5), None);
    assert_eq!(cell_char(&t, 0, 5), None);
    // 'H' at (0,0) with foreground red (palette index 1), no attributes.
    let h = t.screen().get_cell(VTermPos { row: 0, col: 0 }).unwrap();
    assert_eq!(h.chars[0], 'H' as u32);
    assert_eq!(h.pen.fg, PenColor::Idx { idx: 1 });
    assert!(!h.pen.bold && h.pen.underline == 0 && !h.pen.italic && !h.pen.reverse);
    let i = t.screen().get_cell(VTermPos { row: 0, col: 1 }).unwrap();
    assert_eq!(i.chars[0], 'i' as u32);
    assert_eq!(i.pen.fg, PenColor::Idx { idx: 1 });
    // Cursor ends at (0,2).
    let pos = t.screen().state().get_cursorpos();
    assert_eq!((pos.row, pos.col), (0, 2));
    // Pen reset to default after the trailing SGR-0.
    match t.screen().state().get_penattr(VTermAttr::Foreground) {
        VTermValue::Color { v } => assert_eq!(v, PenColor::Default),
        other => panic!("unexpected {:?}", other),
    }
}

#[test]
fn end_to_end_cursor_position_report() {
    let mut t = VTerm::new(24, 80, 0);
    t.write(b"\x1b[4;6H");
    let pos = t.screen().state().get_cursorpos();
    assert_eq!((pos.row, pos.col), (3, 5));
    t.write(b"\x1b[6n");
    let n = t.output_buffer_current();
    let reply = t.output_read(n);
    assert_eq!(reply, b"\x1b[4;6R".to_vec());
    assert_eq!(t.output_buffer_current(), 0);
}

#[test]
fn osc_sets_title() {
    let mut t = VTerm::new(4, 8, 0);
    t.write(b"\x1b]2;my title\x07");
    match t.screen().state().get_termprop(vterm::pen::VTermProp::Title) {
        VTermValue::Str { v } => assert_eq!(v, b"my title".to_vec()),
        other => panic!("unexpected {:?}", other),
    }
}

#[test]
fn dec_modes_toggle_properties() {
    let mut t = VTerm::new(4, 8, 0);
    t.write(b"\x1b[?25l\x1b[?1002h");
    match t.screen().state().get_termprop(vterm::pen::VTermProp::CursorVisible) {
        VTermValue::Bool { v } => assert!(!v),
        other => panic!("unexpected {:?}", other),
    }
    match t.screen().state().get_termprop(vterm::pen::VTermProp::Mouse) {
        VTermValue::Int { v } => assert_eq!(v, 2),
        other => panic!("unexpected {:?}", other),
    }
    t.write(b"\x1b[?25h\x1b[?1002l");
    match t.screen().state().get_termprop(vterm::pen::VTermProp::CursorVisible) {
        VTermValue::Bool { v } => assert!(v),
        other => panic!("unexpected {:?}", other),
    }
}

#[test]
fn scroll_region_linefeed_scrolls() {
    let mut t = VTerm::new(5, 4, 0);
    t.write(b"A\r\nB\r\nC\r\nD\r\nE");
    // Region rows 2..4 (1-based), cursor to its bottom, then LF.
    t.write(b"\x1b[2;4r");
    t.write(b"\x1b[4;1H\n");
    // Row 1 (region top, 0-based) lost its content to the scroll.
    assert_eq!(cell_char(&t, 1, 0), Some(b'C' as u32));
    assert_eq!(cell_char(&t, 2, 0), Some(b'D' as u32));
    assert_eq!(cell_char(&t, 3, 0), None);
    // Rows outside the region are untouched.
    assert_eq!(cell_char(&t, 0, 0), Some(b'A' as u32));
    assert_eq!(cell_char(&t, 4, 0), Some(b'E' as u32));
}

#[test]
fn erase_line_segments() {
    let mut t = VTerm::new(2, 6, 0);
    t.write(b"abcdef");
    t.write(b"\x1b[1;4H\x1b[K");
    assert_eq!(cell_char(&t, 0, 0), Some(b'a' as u32));
    assert_eq!(cell_char(&t, 0, 2), Some(b'c' as u32));
    assert_eq!(cell_char(&t, 0, 3), None);
    assert_eq!(cell_char(&t, 0, 5), None);
}

#[test]
fn resize_clamps_cursor() {
    let mut t = VTerm::new(10, 20, 0);
    t.write(b"\x1b[10;20H");
    t.set_size(4, 5);
    let (rows, cols) = t.get_size();
    assert_eq!((rows, cols), (4, 5));
    let pos = t.screen().state().get_cursorpos();
    assert_eq!((pos.row, pos.col), (3, 4));
}

#[test]
fn utf8_mode_decodes_codepoints() {
    let mut t = VTerm::new(2, 10, 0);
    t.set_utf8(true);
    t.write("é€".as_bytes());
    assert_eq!(cell_char(&t, 0, 0), Some(0xE9));
    assert_eq!(cell_char(&t, 0, 1), Some(0x20AC));
}

#[test]
fn wide_character_takes_two_columns() {
    let mut t = VTerm::new(2, 10, 0);
    t.set_utf8(true);
    t.write("漢x".as_bytes());
    let c = t.screen().get_cell(VTermPos { row: 0, col: 0 }).unwrap();
    assert_eq!(c.chars[0], '漢' as u32);
    assert_eq!(c.width, 2);
    assert_eq!(cell_char(&t, 0, 2), Some(b'x' as u32));
}

#[test]
fn keyboard_encoding() {
    let mut t = VTerm::new(2, 10, 0);
    assert!(t.keyboard_unichar('a' as u32, no_mods()));
    assert!(t.keyboard_key(VTermKey::Up, no_mods()));
    let mut ctrl = no_mods();
    ctrl.ctrl = true;
    assert!(t.keyboard_unichar('C' as u32, ctrl));
    let mut alt = no_mods();
    alt.alt = true;
    assert!(t.keyboard_unichar('x' as u32, alt));
    let n = t.output_buffer_current();
    let out = t.output_read(n);
    assert_eq!(out, b"a\x1b[A\x03\x1bx".to_vec());
}

#[test]
fn mouse_reporting_only_when_enabled() {
    let mut t = VTerm::new(10, 10, 0);
    assert!(!t.mouse_button(0, true, 2, 3));
    assert_eq!(t.output_buffer_current(), 0);
    t.write(b"\x1b[?1000h");
    assert!(t.mouse_button(0, true, 2, 3));
    let n = t.output_buffer_current();
    let out = t.output_read(n);
    assert_eq!(out, b"\x1b[<0;4;3M".to_vec());
}

#[test]
fn output_buffer_accounting() {
    let mut t = VTerm::new(4, 8, 0);
    let size = t.output_buffer_size();
    assert_eq!(t.output_buffer_remaining(), size);
    t.write(b"\x1b[6n");
    assert_eq!(t.output_buffer_current(), 6);
    assert_eq!(t.output_buffer_remaining(), size - 6);
    let got = t.output_read(2);
    assert_eq!(got, b"\x1b[".to_vec());
    assert_eq!(t.output_buffer_current(), 4);
}

#[test]
fn hard_reset_restores_defaults() {
    let mut t = VTerm::new(4, 8, 0);
    t.write(b"\x1b[31mxy\x1b]2;t\x07\x1b[?25l");
    t.write(b"\x1bc");
    let pos = t.screen().state().get_cursorpos();
    assert_eq!((pos.row, pos.col), (0, 0));
    assert_eq!(cell_char(&t, 0, 0), None);
    match t.screen().state().get_termprop(vterm::pen::VTermProp::CursorVisible) {
        VTermValue::Bool { v } => assert!(v),
        other => panic!("unexpected {:?}", other),
    }
    match t.screen().state().get_penattr(VTermAttr::Foreground) {
        VTermValue::Color { v } => assert_eq!(v, PenColor::Default),
        other => panic!("unexpected {:?}", other),
    }
}

#[test]
fn autowrap_continues_on_next_row() {
    let mut t = VTerm::new(3, 4, 0);
    t.write(b"abcdef");
    assert_eq!(cell_char(&t, 0, 3), Some(b'd' as u32));
    assert_eq!(cell_char(&t, 1, 0), Some(b'e' as u32));
    let info = t.screen().state().get_lineinfo(1).unwrap();
    assert!(info.continuation);
}

#[test]
fn default_palette_lookup() {
    let t = VTerm::new(2, 2, 0);
    let c1 = t.screen().state().get_palette_color(1).unwrap();
    assert_eq!((c1.red, c1.green, c1.blue), (205, 0, 0));
    let c196 = t.screen().state().get_palette_color(196).unwrap();
    assert_eq!((c196.red, c196.green, c196.blue), (255, 0, 0));
    let c244 = t.screen().state().get_palette_color(244).unwrap();
    assert_eq!((c244.red, c244.green, c244.blue), (128, 128, 128));
    assert!(t.screen().state().get_palette_color(256).is_none());
}

#[test]
fn malformed_csi_is_ignored() {
    let mut t = VTerm::new(2, 10, 0);
    // An unknown final byte and a CSI with a stray private marker mid-way
    // must not disturb later parsing.
    t.write(b"\x1b[95~\x1b[1;?2x");
    t.write(b"ok");
    assert_eq!(cell_char(&t, 0, 0), Some(b'o' as u32));
    assert_eq!(cell_char(&t, 0, 1), Some(b'k' as u32));
}

#[test]
fn tab_stops_default_and_custom() {
    let mut t = VTerm::new(2, 20, 0);
    t.write(b"\t");
    assert_eq!(t.screen().state().get_cursorpos().col, 8);
    // Clear all stops, set one at column 11, and tab to it from home.
    t.write(b"\x1b[3g\x1b[1;12H\x1bH\r\t");
    assert_eq!(t.screen().state().get_cursorpos().col, 11);
    // Beyond the last stop a tab lands on the last column.
    t.write(b"\t");
    assert_eq!(t.screen().state().get_cursorpos().col, 19);
}

#[test]
fn tab_stop_cleared_at_cursor() {
    let mut t = VTerm::new(2, 20, 0);
    // Clear the stop at column 8; tabbing from home then reaches 16.
    t.write(b"\x1b[1;9H\x1b[0g\r\t");
    assert_eq!(t.screen().state().get_cursorpos().col, 16);
}

#[test]
fn insert_delete_chars_shift_row() {
    let mut t = VTerm::new(2, 6, 0);
    t.write(b"abcdef");
    // Insert two blanks at column 1: "a  bcd".
    t.write(b"\x1b[1;2H\x1b[2@");
    assert_eq!(cell_char(&t, 0, 0), Some(b'a' as u32));
    assert_eq!(cell_char(&t, 0, 1), None);
    assert_eq!(cell_char(&t, 0, 2), None);
    assert_eq!(cell_char(&t, 0, 3), Some(b'b' as u32));
    assert_eq!(cell_char(&t, 0, 5), Some(b'd' as u32));
    // Delete the two blanks again: "abcd  ".
    t.write(b"\x1b[2P");
    assert_eq!(cell_char(&t, 0, 1), Some(b'b' as u32));
    assert_eq!(cell_char(&t, 0, 3), Some(b'd' as u32));
    assert_eq!(cell_char(&t, 0, 4), None);
}

#[test]
fn insert_delete_lines() {
    let mut t = VTerm::new(4, 4, 0);
    t.write(b"A\r\nB\r\nC\r\nD");
    // Insert one line at row 2 (1-based): A, blank, B, C.
    t.write(b"\x1b[2;1H\x1b[1L");
    assert_eq!(cell_char(&t, 0, 0), Some(b'A' as u32));
    assert_eq!(cell_char(&t, 1, 0), None);
    assert_eq!(cell_char(&t, 2, 0), Some(b'B' as u32));
    assert_eq!(cell_char(&t, 3, 0), Some(b'C' as u32));
    // Delete it again: A, B, C, blank.
    t.write(b"\x1b[1M");
    assert_eq!(cell_char(&t, 1, 0), Some(b'B' as u32));
    assert_eq!(cell_char(&t, 2, 0), Some(b'C' as u32));
    assert_eq!(cell_char(&t, 3, 0), None);
}

#[test]
fn erase_chars_ech() {
    let mut t = VTerm::new(2, 6, 0);
    t.write(b"abcdef\x1b[1;2H\x1b[3X");
    assert_eq!(cell_char(&t, 0, 0), Some(b'a' as u32));
    assert_eq!(cell_char(&t, 0, 1), None);
    assert_eq!(cell_char(&t, 0, 3), None);
    assert_eq!(cell_char(&t, 0, 4), Some(b'e' as u32));
}

#[test]
fn selective_erase_in_line() {
    let mut t = VTerm::new(2, 6, 0);
    t.write(b"abcdef\x1b[1;4H\x1b[?K");
    assert_eq!(cell_char(&t, 0, 2), Some(b'c' as u32));
    assert_eq!(cell_char(&t, 0, 3), None);
    assert_eq!(cell_char(&t, 0, 5), None);
}

#[test]
fn color_conversion_to_rgb() {
    let t = VTerm::new(2, 2, 0);
    let red = t.screen().state().convert_color_to_rgb(PenColor::Idx { idx: 1 }, false);
    assert_eq!((red.red, red.green, red.blue), (205, 0, 0));
    let (dfg, dbg) = t.screen().state().get_default_colors();
    let fg = t.screen().state().convert_color_to_rgb(PenColor::Default, false);
    assert_eq!((fg.red, fg.green, fg.blue), (dfg.red, dfg.green, dfg.blue));
    let bg = t.screen().state().convert_color_to_rgb(PenColor::Default, true);
    assert_eq!((bg.red, bg.green, bg.blue), (dbg.red, dbg.green, dbg.blue));
    let direct = t.screen().state().convert_color_to_rgb(
        PenColor::Rgb { color: vterm::pen::VTermColor { red: 1, green: 2, blue: 3 } },
        false,
    );
    assert_eq!((direct.red, direct.green, direct.blue), (1, 2, 3));
}

#[test]
fn is_eol_detects_trailing_blanks() {
    let mut t = VTerm::new(2, 6, 0);
    t.write(b"ab");
    assert_eq!(t.screen().is_eol(VTermPos { row: 0, col: 2 }), Some(true));
    assert_eq!(t.screen().is_eol(VTermPos { row: 0, col: 1 }), Some(false));
    assert_eq!(t.screen().is_eol(VTermPos { row: 0, col: 99 }), None);
}

#[test]
fn get_chars_and_text_extract_rect() {
    let mut t = VTerm::new(2, 6, 0);
    t.write(b"abc\r\nxyz");
    let rect = VTermRect { start_row: 0, end_row: 2, start_col: 0, end_col: 3 };
    let chars = t.screen().get_chars(rect);
    assert_eq!(chars, vec![b'a' as u32, b'b' as u32, b'c' as u32, b'x' as u32, b'y' as u32,
        b'z' as u32]);
    let text = t.screen().get_text(rect);
    assert_eq!(text, b"abcxyz".to_vec());
}

#[test]
fn attrs_extent_finds_run() {
    let mut t = VTerm::new(2, 8, 0);
    t.write(b"ab\x1b[1mcd\x1b[0mef");
    let mask = vterm::screen::VTermAttrMask {
        bold: true,
        underline: false,
        italic: false,
        blink: false,
        reverse: false,
        strike: false,
        font: false,
        foreground: false,
        background: false,
    };
    let r = t.screen().get_attrs_extent(VTermPos { row: 0, col: 2 }, mask).unwrap();
    assert_eq!((r.start_row, r.end_row), (0, 1));
    assert_eq!((r.start_col, r.end_col), (2, 4));
    assert!(t.screen().get_attrs_extent(VTermPos { row: 5, col: 0 }, mask).is_none());
}
