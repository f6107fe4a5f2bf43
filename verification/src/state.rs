//! The state layer: interprets parser events against authoritative terminal
//! state (cursor, pen, scroll region, properties, palette) and emits
//! semantic actions for a grid layer to materialize.
//!
//! The whole state transition is modelled by the pure function [`st_step`];
//! [`VTermState::handle_event`] is proved to implement it exactly.  Cursor
//! motion is clamped into the grid everywhere, which is the content of
//! [`lemma_cursor_clamp`].

use vstd::prelude::*;
use vstd::pervasive::VecAdditionalExecFns;
use crate::geom::{VTermPos, VTermRect};
use crate::parser::{CsiParam, EventV, VTermEvent};
use crate::pen::{
    apply_sgr, default_pen, lemma_apply_sgr_wf, pen_apply_sgr, pen_get_attr, pen_wf, PenColor,
    VTermAttr, VTermColor, VTermPen, VTermProp, VTermValue,
};
use crate::output::{dec_bytes, u32_dec};

verus! {

/// Per-row metadata: double-width / double-height legacy modes and whether
/// the row is a soft-wrap continuation of the one above.
#[derive(Clone, Copy, PartialEq, Eq, Structural, Debug)]
pub struct VTermLineInfo {
    pub doublewidth: bool,
    pub doubleheight: u8,
    pub continuation: bool,
}

pub open spec fn default_line() -> VTermLineInfo {
    VTermLineInfo { doublewidth: false, doubleheight: 0, continuation: false }
}

pub open spec fn default_lineinfo(rows: int) -> Seq<VTermLineInfo> {
    Seq::new(rows as nat, |i: int| default_line())
}

/// The default tab stops: one every 8 columns.
pub open spec fn default_tabs(cols: int) -> Seq<bool> {
    Seq::new(cols as nat, |i: int| i % 8 == 0)
}

/// The first set tab stop at or after column `c`, or the last column when
/// none remains.
pub open spec fn next_tab(tabs: Seq<bool>, c: int) -> int
    decreases tabs.len() - c,
{
    if c < 0 || c >= tabs.len() {
        if tabs.len() >= 1 {
            tabs.len() - 1
        } else {
            0
        }
    } else if tabs[c] {
        c
    } else {
        next_tab(tabs, c + 1)
    }
}

pub proof fn lemma_next_tab_bound(tabs: Seq<bool>, c: int)
    requires
        tabs.len() >= 1,
    ensures
        0 <= next_tab(tabs, c) < tabs.len(),
    decreases tabs.len() - c,
{
    if 0 <= c < tabs.len() && !tabs[c] {
        lemma_next_tab_bound(tabs, c + 1);
    }
}

/// Mathematical image of the terminal state.
#[verifier::ext_equal]
pub struct TermStateV {
    pub rows: int,
    pub cols: int,
    pub cur_row: int,
    pub cur_col: int,
    pub pen: VTermPen,
    /// Scroll region rows `[top, bot)`.
    pub top: int,
    pub bot: int,
    pub cursor_visible: bool,
    pub cursor_blink: bool,
    pub alt_screen: bool,
    pub title: Seq<u8>,
    pub icon_name: Seq<u8>,
    pub reverse_video: bool,
    pub cursor_shape: int,
    pub mouse_mode: int,
    pub autowrap: bool,
    pub saved_row: int,
    pub saved_col: int,
    pub saved_pen: VTermPen,
    pub default_fg: VTermColor,
    pub default_bg: VTermColor,
    pub palette: Seq<VTermColor>,
    pub lineinfo: Seq<VTermLineInfo>,
    /// One flag per column: whether a tab stop is set there.
    pub tabs: Seq<bool>,
}

pub open spec fn st_wf(s: TermStateV) -> bool {
    &&& 1 <= s.rows <= 0xffff
    &&& 1 <= s.cols <= 0xffff
    &&& 0 <= s.cur_row < s.rows
    &&& 0 <= s.cur_col < s.cols
    &&& 0 <= s.top < s.bot <= s.rows
    &&& 0 <= s.saved_row < s.rows
    &&& 0 <= s.saved_col < s.cols
    &&& 0 <= s.mouse_mode <= 3
    &&& 0 <= s.cursor_shape <= 6
    &&& pen_wf(s.pen)
    &&& pen_wf(s.saved_pen)
    &&& s.palette.len() == 256
    &&& s.lineinfo.len() == s.rows
    &&& s.tabs.len() == s.cols
}

pub open spec fn clampi(v: int, lo: int, hi: int) -> int {
    if v < lo {
        lo
    } else if v > hi {
        hi
    } else {
        v
    }
}

/// The default color of palette entry `i`: 16 base colors, a 6x6x6 color
/// cube, then a 24-step gray ramp.
pub open spec fn default_palette_color(i: int) -> VTermColor {
    if i == 0 {
        VTermColor { red: 0, green: 0, blue: 0 }
    } else if i == 1 {
        VTermColor { red: 205, green: 0, blue: 0 }
    } else if i == 2 {
        VTermColor { red: 0, green: 205, blue: 0 }
    } else if i == 3 {
        VTermColor { red: 205, green: 205, blue: 0 }
    } else if i == 4 {
        VTermColor { red: 0, green: 0, blue: 238 }
    } else if i == 5 {
        VTermColor { red: 205, green: 0, blue: 205 }
    } else if i == 6 {
        VTermColor { red: 0, green: 205, blue: 205 }
    } else if i == 7 {
        VTermColor { red: 229, green: 229, blue: 229 }
    } else if i == 8 {
        VTermColor { red: 127, green: 127, blue: 127 }
    } else if i == 9 {
        VTermColor { red: 255, green: 0, blue: 0 }
    } else if i == 10 {
        VTermColor { red: 0, green: 255, blue: 0 }
    } else if i == 11 {
        VTermColor { red: 255, green: 255, blue: 0 }
    } else if i == 12 {
        VTermColor { red: 92, green: 92, blue: 255 }
    } else if i == 13 {
        VTermColor { red: 255, green: 0, blue: 255 }
    } else if i == 14 {
        VTermColor { red: 0, green: 255, blue: 255 }
    } else if i == 15 {
        VTermColor { red: 255, green: 255, blue: 255 }
    } else if i < 232 {
        let c = i - 16;
        let r = c / 36;
        let g = (c / 6) % 6;
        let b = c % 6;
        VTermColor {
            red: (if r == 0 { 0 } else { 55 + 40 * r }) as u8,
            green: (if g == 0 { 0 } else { 55 + 40 * g }) as u8,
            blue: (if b == 0 { 0 } else { 55 + 40 * b }) as u8,
        }
    } else {
        let v = (8 + 10 * (i - 232)) as u8;
        VTermColor { red: v, green: v, blue: v }
    }
}

pub open spec fn default_palette() -> Seq<VTermColor> {
    Seq::new(256, |i: int| default_palette_color(i))
}

pub open spec fn default_foreground() -> VTermColor {
    VTermColor { red: 240, green: 240, blue: 240 }
}

pub open spec fn default_background() -> VTermColor {
    VTermColor { red: 0, green: 0, blue: 0 }
}

/// The state of a freshly constructed terminal.
pub open spec fn st_init(rows: int, cols: int) -> TermStateV {
    TermStateV {
        rows,
        cols,
        cur_row: 0,
        cur_col: 0,
        pen: default_pen(),
        top: 0,
        bot: rows,
        cursor_visible: true,
        cursor_blink: true,
        alt_screen: false,
        title: Seq::empty(),
        icon_name: Seq::empty(),
        reverse_video: false,
        cursor_shape: 1,
        mouse_mode: 0,
        autowrap: true,
        saved_row: 0,
        saved_col: 0,
        saved_pen: default_pen(),
        default_fg: default_foreground(),
        default_bg: default_background(),
        palette: default_palette(),
        lineinfo: default_lineinfo(rows),
        tabs: default_tabs(cols),
    }
}

/// Soft reset restores cursor, pen, scroll region, wrap mode and line info;
/// hard reset additionally restores every property, the default colors and
/// the palette.
pub open spec fn st_reset(s: TermStateV, hard: bool) -> TermStateV {
    let soft = TermStateV {
        cur_row: 0,
        cur_col: 0,
        pen: default_pen(),
        top: 0,
        bot: s.rows,
        autowrap: true,
        lineinfo: default_lineinfo(s.rows),
        tabs: default_tabs(s.cols),
        ..s
    };
    if hard {
        TermStateV {
            cursor_visible: true,
            cursor_blink: true,
            alt_screen: false,
            title: Seq::empty(),
            icon_name: Seq::empty(),
            reverse_video: false,
            cursor_shape: 1,
            mouse_mode: 0,
            saved_row: 0,
            saved_col: 0,
            saved_pen: default_pen(),
            default_fg: default_foreground(),
            default_bg: default_background(),
            palette: default_palette(),
            ..soft
        }
    } else {
        soft
    }
}

/// Moving one row down: at the bottom of the scroll region the cursor stays
/// (the grid scrolls instead); elsewhere it advances, clamped to the grid.
pub open spec fn st_row_down(s: TermStateV) -> TermStateV {
    if s.cur_row == s.bot - 1 {
        s
    } else if s.cur_row < s.rows - 1 {
        TermStateV { cur_row: s.cur_row + 1, ..s }
    } else {
        s
    }
}

/// Moving one row up: at the top of the scroll region the cursor stays (the
/// grid scrolls instead); elsewhere it retreats, clamped to the grid.
pub open spec fn st_row_up(s: TermStateV) -> TermStateV {
    if s.cur_row == s.top {
        s
    } else if s.cur_row > 0 {
        TermStateV { cur_row: s.cur_row - 1, ..s }
    } else {
        s
    }
}

/// Display width of a codepoint: 0 for combining marks, 2 for wide
/// East-Asian ranges, 1 otherwise.
pub open spec fn char_width(ch: u32) -> int {
    if (0x0300 <= ch <= 0x036f) || (0x20d0 <= ch <= 0x20ff) || (0xfe20 <= ch <= 0xfe2f) {
        0
    } else if (0x1100 <= ch <= 0x115f) || (0x2e80 <= ch <= 0x303e) || (0x3041 <= ch <= 0x33ff)
        || (0x3400 <= ch <= 0x4dbf) || (0x4e00 <= ch <= 0x9fff) || (0xa000 <= ch <= 0xa4cf) || (
    0xac00 <= ch <= 0xd7a3) || (0xf900 <= ch <= 0xfaff) || (0xfe30 <= ch <= 0xfe4f) || (0xff00 <= ch
        <= 0xff60) || (0xffe0 <= ch <= 0xffe6) || (0x20000 <= ch <= 0x2fffd) || (0x30000 <= ch
        <= 0x3fffd) {
        2
    } else {
        1
    }
}

/// Writing one codepoint: the cursor advances by the glyph's width; at the
/// end of the line it soft-wraps (when wrap mode is on, marking the landing
/// row as a continuation) or stays on the last column.
pub open spec fn st_text(s: TermStateV, ch: u32) -> TermStateV {
    let w = char_width(ch);
    if w == 0 {
        s
    } else {
        let nc = s.cur_col + w;
        if nc >= s.cols {
            if s.autowrap {
                let s1 = st_row_down(TermStateV { cur_col: 0, ..s });
                if 0 <= s1.cur_row < s1.lineinfo.len() {
                    TermStateV {
                        lineinfo: s1.lineinfo.update(
                            s1.cur_row,
                            VTermLineInfo { continuation: true, ..s1.lineinfo[s1.cur_row] },
                        ),
                        ..s1
                    }
                } else {
                    s1
                }
            } else {
                TermStateV { cur_col: s.cols - 1, ..s }
            }
        } else {
            TermStateV { cur_col: nc, ..s }
        }
    }
}

/// A single control byte: line feed family, carriage return, backspace,
/// tab (fixed stops every 8 columns), C1 index/next-line/reverse-index.
pub open spec fn st_control(s: TermStateV, b: u8) -> TermStateV {
    if b == 0x0a || b == 0x0b || b == 0x0c || b == 0x84 {
        st_row_down(s)
    } else if b == 0x0d {
        TermStateV { cur_col: 0, ..s }
    } else if b == 0x08 {
        TermStateV { cur_col: if s.cur_col > 0 { s.cur_col - 1 } else { 0 }, ..s }
    } else if b == 0x09 {
        TermStateV { cur_col: next_tab(s.tabs, s.cur_col + 1), ..s }
    } else if b == 0x85 {
        st_row_down(TermStateV { cur_col: 0, ..s })
    } else if b == 0x8d {
        st_row_up(s)
    } else {
        s
    }
}

/// Raw value of parameter `i`, 0 when absent.
pub open spec fn pval(ps: Seq<CsiParam>, i: int) -> u32 {
    if 0 <= i < ps.len() {
        ps[i].value
    } else {
        0
    }
}

/// Parameter `i` with default 1: absent or zero means 1.
pub open spec fn pdef1(ps: Seq<CsiParam>, i: int) -> int {
    if pval(ps, i) == 0 {
        1
    } else {
        pval(ps, i) as int
    }
}

/// One DEC private mode set (`h`) or reset (`l`).
pub open spec fn dec_mode_one(s: TermStateV, num: u32, set: bool) -> TermStateV {
    if num == 5 {
        TermStateV { reverse_video: set, ..s }
    } else if num == 7 {
        TermStateV { autowrap: set, ..s }
    } else if num == 12 {
        TermStateV { cursor_blink: set, ..s }
    } else if num == 25 {
        TermStateV { cursor_visible: set, ..s }
    } else if num == 47 || num == 1047 {
        TermStateV { alt_screen: set, ..s }
    } else if num == 1049 {
        if set {
            TermStateV {
                alt_screen: true,
                saved_row: s.cur_row,
                saved_col: s.cur_col,
                saved_pen: s.pen,
                ..s
            }
        } else {
            TermStateV {
                alt_screen: false,
                cur_row: clampi(s.saved_row, 0, s.rows - 1),
                cur_col: clampi(s.saved_col, 0, s.cols - 1),
                pen: s.saved_pen,
                ..s
            }
        }
    } else if num == 1000 {
        TermStateV { mouse_mode: if set { 1 } else { 0 }, ..s }
    } else if num == 1002 {
        TermStateV { mouse_mode: if set { 2 } else { 0 }, ..s }
    } else if num == 1003 {
        TermStateV { mouse_mode: if set { 3 } else { 0 }, ..s }
    } else {
        s
    }
}

/// Every parameter of a DEC private mode sequence applies in order.
pub open spec fn dec_modes(s: TermStateV, ps: Seq<CsiParam>, i: int, set: bool) -> TermStateV
    decreases ps.len() - i,
{
    if i < 0 || i >= ps.len() {
        s
    } else {
        dec_modes(dec_mode_one(s, ps[i].value, set), ps, i + 1, set)
    }
}

/// The state change of a CSI sequence.  Erase and scroll sequences change
/// the grid, not the state, so they leave the state untouched here.
pub open spec fn st_csi(
    s: TermStateV,
    leader: Seq<u8>,
    ps: Seq<CsiParam>,
    inters: Seq<u8>,
    fb: u8,
) -> TermStateV {
    if leader.len() == 0 && inters.len() == 0 {
        let n = pdef1(ps, 0);
        if fb == 0x41 {
            // CUU: up, stopping at the scroll-region top when inside it.
            let lo = if s.cur_row >= s.top { s.top } else { 0 };
            TermStateV { cur_row: clampi(s.cur_row - n, lo, s.rows - 1), ..s }
        } else if fb == 0x42 {
            // CUD
            let hi = if s.cur_row < s.bot { s.bot - 1 } else { s.rows - 1 };
            TermStateV { cur_row: clampi(s.cur_row + n, 0, hi), ..s }
        } else if fb == 0x43 {
            // CUF
            TermStateV { cur_col: clampi(s.cur_col + n, 0, s.cols - 1), ..s }
        } else if fb == 0x44 {
            // CUB
            TermStateV { cur_col: clampi(s.cur_col - n, 0, s.cols - 1), ..s }
        } else if fb == 0x45 {
            // CNL
            let hi = if s.cur_row < s.bot { s.bot - 1 } else { s.rows - 1 };
            TermStateV { cur_row: clampi(s.cur_row + n, 0, hi), cur_col: 0, ..s }
        } else if fb == 0x46 {
            // CPL
            let lo = if s.cur_row >= s.top { s.top } else { 0 };
            TermStateV { cur_row: clampi(s.cur_row - n, lo, s.rows - 1), cur_col: 0, ..s }
        } else if fb == 0x47 || fb == 0x60 {
            // CHA / HPA
            TermStateV { cur_col: clampi(n - 1, 0, s.cols - 1), ..s }
        } else if fb == 0x64 {
            // VPA
            TermStateV { cur_row: clampi(n - 1, 0, s.rows - 1), ..s }
        } else if fb == 0x48 || fb == 0x66 {
            // CUP / HVP
            TermStateV {
                cur_row: clampi(pdef1(ps, 0) - 1, 0, s.rows - 1),
                cur_col: clampi(pdef1(ps, 1) - 1, 0, s.cols - 1),
                ..s
            }
        } else if fb == 0x67 {
            // TBC: clear the tab stop at the cursor (0) or all stops (3).
            let m = pval(ps, 0);
            if m == 0 {
                if 0 <= s.cur_col < s.tabs.len() {
                    TermStateV { tabs: s.tabs.update(s.cur_col, false), ..s }
                } else {
                    s
                }
            } else if m == 3 {
                TermStateV { tabs: Seq::new(s.tabs.len(), |i: int| false), ..s }
            } else {
                s
            }
        } else if fb == 0x6d {
            // SGR
            TermStateV { pen: apply_sgr(s.pen, ps), ..s }
        } else if fb == 0x72 {
            // DECSTBM
            let t = pdef1(ps, 0);
            let braw = pval(ps, 1);
            let b = if braw == 0 || braw > s.rows { s.rows } else { braw as int };
            if t - 1 < b {
                TermStateV { top: t - 1, bot: b, cur_row: 0, cur_col: 0, ..s }
            } else {
                s
            }
        } else {
            s
        }
    } else if leader.len() == 1 && leader[0] == 0x3f && inters.len() == 0 && fb == 0x68 {
        dec_modes(s, ps, 0, true)
    } else if leader.len() == 1 && leader[0] == 0x3f && inters.len() == 0 && fb == 0x6c {
        dec_modes(s, ps, 0, false)
    } else if leader.len() == 0 && inters.len() == 1 && inters[0] == 0x20 && fb == 0x71 {
        // DECSCUSR
        let v = pval(ps, 0);
        TermStateV { cursor_shape: if v <= 6 { v as int } else { 6 }, ..s }
    } else if leader.len() == 0 && inters.len() == 1 && inters[0] == 0x21 && fb == 0x70 {
        // DECSTR
        st_reset(s, false)
    } else {
        s
    }
}

/// The state change of a non-CSI escape sequence.
pub open spec fn st_escape(s: TermStateV, bytes: Seq<u8>) -> TermStateV {
    if bytes.len() == 1 && bytes[0] == 0x63 {
        st_reset(s, true)
    } else if bytes.len() == 1 && bytes[0] == 0x37 {
        TermStateV { saved_row: s.cur_row, saved_col: s.cur_col, saved_pen: s.pen, ..s }
    } else if bytes.len() == 1 && bytes[0] == 0x38 {
        TermStateV {
            cur_row: clampi(s.saved_row, 0, s.rows - 1),
            cur_col: clampi(s.saved_col, 0, s.cols - 1),
            pen: s.saved_pen,
            ..s
        }
    } else if bytes.len() == 1 && bytes[0] == 0x44 {
        st_row_down(s)
    } else if bytes.len() == 1 && bytes[0] == 0x4d {
        st_row_up(s)
    } else if bytes.len() == 1 && bytes[0] == 0x45 {
        st_row_down(TermStateV { cur_col: 0, ..s })
    } else if bytes.len() == 1 && bytes[0] == 0x48 {
        if 0 <= s.cur_col < s.tabs.len() {
            TermStateV { tabs: s.tabs.update(s.cur_col, true), ..s }
        } else {
            s
        }
    } else {
        s
    }
}

/// The state change of an OSC string: a single-digit `0`, `1` or `2` code
/// followed by `;` sets the title and/or icon name; everything else is
/// ignored.
pub open spec fn st_osc(s: TermStateV, payload: Seq<u8>) -> TermStateV {
    if payload.len() >= 2 && payload[1] == 0x3b {
        let rest = payload.skip(2);
        if payload[0] == 0x30 {
            TermStateV { title: rest, icon_name: rest, ..s }
        } else if payload[0] == 0x31 {
            TermStateV { icon_name: rest, ..s }
        } else if payload[0] == 0x32 {
            TermStateV { title: rest, ..s }
        } else {
            s
        }
    } else {
        s
    }
}

/// A size change: dimensions are clamped to at least one cell, the cursor
/// and saved cursor are clamped into the new grid, the scroll region resets
/// to the full grid and line info is recomputed.
pub open spec fn st_resize(s: TermStateV, r0: u16, c0: u16) -> TermStateV {
    let rows = if r0 == 0 { 1 } else { r0 as int };
    let cols = if c0 == 0 { 1 } else { c0 as int };
    TermStateV {
        rows,
        cols,
        cur_row: clampi(s.cur_row, 0, rows - 1),
        cur_col: clampi(s.cur_col, 0, cols - 1),
        top: 0,
        bot: rows,
        saved_row: clampi(s.saved_row, 0, rows - 1),
        saved_col: clampi(s.saved_col, 0, cols - 1),
        lineinfo: default_lineinfo(rows),
        tabs: default_tabs(cols),
        ..s
    }
}

/// The full state transition for one event.
pub open spec fn st_step(s: TermStateV, ev: EventV) -> TermStateV {
    match ev {
        EventV::Text { ch } => st_text(s, ch),
        EventV::Control { byte } => st_control(s, byte),
        EventV::Escape { bytes } => st_escape(s, bytes),
        EventV::Csi { leader, params, inters, final_byte } => st_csi(
            s,
            leader,
            params,
            inters,
            final_byte,
        ),
        EventV::Osc { payload } => st_osc(s, payload),
        EventV::Dcs { payload } => s,
        EventV::Resize { rows, cols } => st_resize(s, rows, cols),
    }
}

/// The fold of [`st_step`] over a sequence of events.
pub open spec fn st_run(s: TermStateV, evs: Seq<EventV>) -> TermStateV
    decreases evs.len(),
{
    if evs.len() == 0 {
        s
    } else {
        st_run(st_step(s, evs[0]), evs.drop_first())
    }
}

pub proof fn lemma_dec_modes_wf(s: TermStateV, ps: Seq<CsiParam>, i: int, set: bool)
    requires
        st_wf(s),
    ensures
        st_wf(dec_modes(s, ps, i, set)),
    decreases ps.len() - i,
{
    if 0 <= i < ps.len() {
        lemma_dec_modes_wf(dec_mode_one(s, ps[i].value, set), ps, i + 1, set);
    }
}

/// The CSI case of [`lemma_st_step_wf`].
#[verifier::rlimit(100)]
proof fn lemma_st_csi_wf(s: TermStateV, leader: Seq<u8>, params: Seq<CsiParam>, inters: Seq<u8>, fb: u8)
    requires
        st_wf(s),
    ensures
        st_wf(st_csi(s, leader, params, inters, fb)),
{
    if leader.len() == 0 && inters.len() == 0 && fb == 0x6d {
        lemma_apply_sgr_wf(s.pen, params);
    } else if leader.len() == 1 && leader[0] == 0x3f && inters.len() == 0 && (fb == 0x68 || fb
        == 0x6c) {
        lemma_dec_modes_wf(s, params, 0, fb == 0x68);
    }
}

/// Every single step keeps the state well-formed; in particular the cursor
/// stays inside the grid.
#[verifier::rlimit(100)]
pub proof fn lemma_st_step_wf(s: TermStateV, ev: EventV)
    requires
        st_wf(s),
    ensures
        st_wf(st_step(s, ev)),
{
    match ev {
        EventV::Control { byte } => {
            if byte == 0x09 {
                lemma_next_tab_bound(s.tabs, s.cur_col + 1);
            }
        },
        EventV::Csi { leader, params, inters, final_byte } => {
            lemma_st_csi_wf(s, leader, params, inters, final_byte);
        },
        _ => {},
    }
}

/// Cursor clamp invariant: after any sequence of events, a well-formed
/// state stays well-formed, so `0 <= cursor row < rows` and
/// `0 <= cursor column < cols` always hold.
pub proof fn lemma_cursor_clamp(s: TermStateV, evs: Seq<EventV>)
    requires
        st_wf(s),
    ensures
        st_wf(st_run(s, evs)),
        0 <= st_run(s, evs).cur_row < st_run(s, evs).rows,
        0 <= st_run(s, evs).cur_col < st_run(s, evs).cols,
    decreases evs.len(),
{
    if evs.len() > 0 {
        lemma_st_step_wf(s, evs[0]);
        lemma_cursor_clamp(st_step(s, evs[0]), evs.drop_first());
    }
}

/// A pen color resolved to RGB against a state's palette and default
/// colors; `is_bg` says which default sentinel the color stands for.
pub open spec fn color_to_rgb(s: TermStateV, c: PenColor, is_bg: bool) -> VTermColor {
    match c {
        PenColor::Default => if is_bg {
            s.default_bg
        } else {
            s.default_fg
        },
        PenColor::Idx { idx } => s.palette[idx as int],
        PenColor::Rgb { color } => color,
    }
}

/// The cursor-position report `ESC [ row+1 ; col+1 R`, 1-based.
pub open spec fn dsr_bytes(row: int, col: int) -> Seq<u8>
    recommends
        0 <= row,
        0 <= col,
{
    seq![0x1bu8, 0x5b] + dec_bytes((row + 1) as u32) + seq![0x3bu8] + dec_bytes(
        (col + 1) as u32,
    ) + seq![0x52u8]
}

/// A semantic action handed to the grid layer (or an outer consumer).
#[derive(Debug)]
pub enum StateAction {
    /// Write one glyph at a position with the pen it was written under.
    PutGlyph { ch: u32, width: u8, pos: VTermPos, pen: VTermPen },
    /// Attach a combining codepoint to the cell at a position.
    PutCombining { ch: u32, pos: VTermPos },
    /// The cursor moved.
    MoveCursor { oldp: VTermPos, newp: VTermPos, visible: bool },
    /// Scroll the content of `rect` by the given deltas; vacated cells are
    /// erased.  Positive `downward` moves content toward the top (the cell
    /// at `p` takes the former content of `p + delta`).
    ScrollRect { rect: VTermRect, downward: i32, rightward: i32 },
    /// Erase a rectangle to blank cells carrying the given pen's colors.
    Erase { rect: VTermRect, selective: bool, pen: VTermPen },
    /// A terminal property changed.
    SetTermProp { prop: VTermProp, val: VTermValue },
    /// Ring the bell.
    Bell,
    /// The grid dimensions changed.
    Resize { rows: u16, cols: u16 },
    /// Per-row metadata changed.
    SetLineInfo { row: i32, info: VTermLineInfo },
    /// Bytes owed to the application (for example a cursor-position
    /// report); the owner queues them on the output buffer.
    Report { bytes: Vec<u8> },
}

pub open spec fn rect_in_grid(r: VTermRect, rows: int, cols: int) -> bool {
    &&& 0 <= r.start_row <= r.end_row <= rows
    &&& 0 <= r.start_col <= r.end_col <= cols
}

/// Bounds a grid layer may rely on for each action.
pub open spec fn act_wf(a: StateAction, rows: int, cols: int) -> bool {
    match a {
        StateAction::PutGlyph { ch, width, pos, pen } => 0 <= pos.row < rows && 0 <= pos.col < cols
            && 1 <= width <= 2,
        StateAction::PutCombining { ch, pos } => 0 <= pos.row < rows && 0 <= pos.col < cols,
        StateAction::ScrollRect { rect, downward, rightward } => rect_in_grid(rect, rows, cols)
            && -0x8000 <= downward <= 0x8000 && -0x8000 <= rightward <= 0x8000,
        StateAction::Erase { rect, selective, pen } => rect_in_grid(rect, rows, cols),
        StateAction::Resize { rows: r, cols: c } => r as int == rows && c as int == cols && r >= 1
            && c >= 1,
        _ => true,
    }
}

pub open spec fn acts_wf(acts: Seq<StateAction>, rows: int, cols: int) -> bool {
    forall|k: int| 0 <= k < acts.len() ==> act_wf(#[trigger] acts[k], rows, cols)
}

pub open spec fn no_reports(acts: Seq<StateAction>) -> bool {
    forall|k: int| 0 <= k < acts.len() ==> !(#[trigger] acts[k] is Report)
}

/// Whether an event is the cursor-position query `CSI 6 n`.
pub open spec fn is_dsr_query(ev: EventV) -> bool {
    &&& ev is Csi
    &&& ev->Csi_leader.len() == 0
    &&& ev->Csi_inters.len() == 0
    &&& ev->Csi_final_byte == 0x6e
    &&& pval(ev->Csi_params, 0) == 6
}

fn clamp_add(cur: u16, n: u32, lo: u16, hi: u16) -> (r: u16)
    requires
        lo <= hi,
    ensures
        r as int == clampi(cur as int + n as int, lo as int, hi as int),
{
    let t: u64 = cur as u64 + n as u64;
    if t < lo as u64 {
        lo
    } else if t > hi as u64 {
        hi
    } else {
        t as u16
    }
}

fn clamp_sub(cur: u16, n: u32, lo: u16, hi: u16) -> (r: u16)
    requires
        lo <= hi,
    ensures
        r as int == clampi(cur as int - n as int, lo as int, hi as int),
{
    let c: u64 = cur as u64;
    let m: u64 = n as u64;
    let v: u64 = if c >= m {
        c - m
    } else {
        0
    };
    if v < lo as u64 {
        lo
    } else if v > hi as u64 {
        hi
    } else {
        v as u16
    }
}

/// Clamps a 1-based parameter into `0..=hi`.
fn from_1based(n: u32, hi: u16) -> (r: u16)
    requires
        n >= 1,
    ensures
        r as int == clampi(n as int - 1, 0, hi as int),
{
    let v: u32 = n - 1;
    if v > hi as u32 {
        hi
    } else {
        v as u16
    }
}

fn get_p(params: &Vec<CsiParam>, i: usize) -> (r: u32)
    ensures
        r == pval(params@, i as int),
{
    if i < params.len() {
        params[i].value
    } else {
        0
    }
}

fn get_pdef1(params: &Vec<CsiParam>, i: usize) -> (r: u32)
    ensures
        r as int == pdef1(params@, i as int),
        r >= 1,
{
    let v = get_p(params, i);
    if v == 0 {
        1
    } else {
        v
    }
}

fn char_width_exec(ch: u32) -> (w: u8)
    ensures
        w as int == char_width(ch),
{
    if (0x0300 <= ch && ch <= 0x036f) || (0x20d0 <= ch && ch <= 0x20ff) || (0xfe20 <= ch && ch
        <= 0xfe2f) {
        0
    } else if (0x1100 <= ch && ch <= 0x115f) || (0x2e80 <= ch && ch <= 0x303e) || (0x3041 <= ch
        && ch <= 0x33ff) || (0x3400 <= ch && ch <= 0x4dbf) || (0x4e00 <= ch && ch <= 0x9fff) || (
    0xa000 <= ch && ch <= 0xa4cf) || (0xac00 <= ch && ch <= 0xd7a3) || (0xf900 <= ch && ch
        <= 0xfaff) || (0xfe30 <= ch && ch <= 0xfe4f) || (0xff00 <= ch && ch <= 0xff60) || (0xffe0
        <= ch && ch <= 0xffe6) || (0x20000 <= ch && ch <= 0x2fffd) || (0x30000 <= ch && ch
        <= 0x3fffd) {
        2
    } else {
        1
    }
}

fn default_palette_entry(i: u16) -> (c: VTermColor)
    requires
        i < 256,
    ensures
        c == default_palette_color(i as int),
{
    if i == 0 {
        VTermColor { red: 0, green: 0, blue: 0 }
    } else if i == 1 {
        VTermColor { red: 205, green: 0, blue: 0 }
    } else if i == 2 {
        VTermColor { red: 0, green: 205, blue: 0 }
    } else if i == 3 {
        VTermColor { red: 205, green: 205, blue: 0 }
    } else if i == 4 {
        VTermColor { red: 0, green: 0, blue: 238 }
    } else if i == 5 {
        VTermColor { red: 205, green: 0, blue: 205 }
    } else if i == 6 {
        VTermColor { red: 0, green: 205, blue: 205 }
    } else if i == 7 {
        VTermColor { red: 229, green: 229, blue: 229 }
    } else if i == 8 {
        VTermColor { red: 127, green: 127, blue: 127 }
    } else if i == 9 {
        VTermColor { red: 255, green: 0, blue: 0 }
    } else if i == 10 {
        VTermColor { red: 0, green: 255, blue: 0 }
    } else if i == 11 {
        VTermColor { red: 255, green: 255, blue: 0 }
    } else if i == 12 {
        VTermColor { red: 92, green: 92, blue: 255 }
    } else if i == 13 {
        VTermColor { red: 255, green: 0, blue: 255 }
    } else if i == 14 {
        VTermColor { red: 0, green: 255, blue: 255 }
    } else if i == 15 {
        VTermColor { red: 255, green: 255, blue: 255 }
    } else if i < 232 {
        let c: u16 = i - 16;
        let r: u16 = c / 36;
        let g: u16 = (c / 6) % 6;
        let b: u16 = c % 6;
        VTermColor {
            red: if r == 0 {
                0
            } else {
                (55 + 40 * r) as u8
            },
            green: if g == 0 {
                0
            } else {
                (55 + 40 * g) as u8
            },
            blue: if b == 0 {
                0
            } else {
                (55 + 40 * b) as u8
            },
        }
    } else {
        let v: u16 = 8 + 10 * (i - 232);
        VTermColor { red: v as u8, green: v as u8, blue: v as u8 }
    }
}

fn make_palette() -> (p: Vec<VTermColor>)
    ensures
        p@ == default_palette(),
{
    let mut p: Vec<VTermColor> = Vec::new();
    let mut i: u16 = 0;
    while i < 256
        invariant
            i <= 256,
            p@.len() == i,
            forall|k: int| 0 <= k < i ==> p@[k] == default_palette_color(k),
        decreases 256 - i,
    {
        p.push(default_palette_entry(i));
        i = i + 1;
    }
    proof {
        assert(p@ =~= default_palette());
    }
    p
}

fn make_lineinfo(rows: u16) -> (v: Vec<VTermLineInfo>)
    ensures
        v@ == default_lineinfo(rows as int),
{
    let mut v: Vec<VTermLineInfo> = Vec::new();
    let mut i: u16 = 0;
    while i < rows
        invariant
            i <= rows,
            v@.len() == i,
            forall|k: int| 0 <= k < i ==> v@[k] == default_line(),
        decreases rows - i,
    {
        v.push(VTermLineInfo { doublewidth: false, doubleheight: 0, continuation: false });
        i = i + 1;
    }
    proof {
        assert(v@ =~= default_lineinfo(rows as int));
    }
    v
}

fn copy_bytes(src: &Vec<u8>) -> (r: Vec<u8>)
    ensures
        r@ == src@,
{
    let mut r: Vec<u8> = Vec::new();
    let mut i: usize = 0;
    while i < src.len()
        invariant
            i <= src@.len(),
            r@ == src@.take(i as int),
        decreases src@.len() - i,
    {
        r.push(src[i]);
        i = i + 1;
        proof {
            assert(src@.take(i as int) =~= src@.take(i - 1).push(src@[i - 1]));
        }
    }
    proof {
        assert(src@.take(src@.len() as int) =~= src@);
    }
    r
}

fn make_tabs(cols: u16) -> (v: Vec<bool>)
    ensures
        v@ == default_tabs(cols as int),
{
    let mut v: Vec<bool> = Vec::new();
    let mut i: u16 = 0;
    while i < cols
        invariant
            i <= cols,
            v@.len() == i,
            forall|k: int| 0 <= k < i ==> v@[k] == (k % 8 == 0),
        decreases cols - i,
    {
        v.push(i % 8 == 0);
        i = i + 1;
    }
    proof {
        assert(v@ =~= default_tabs(cols as int));
    }
    v
}

/// The authoritative terminal state.  All mutation goes through
/// [`VTermState::handle_event`], which implements [`st_step`] exactly.
pub struct VTermState {
    rows: u16,
    cols: u16,
    cur_row: u16,
    cur_col: u16,
    pen: VTermPen,
    top: u16,
    bot: u16,
    cursor_visible: bool,
    cursor_blink: bool,
    alt_screen: bool,
    title: Vec<u8>,
    icon_name: Vec<u8>,
    reverse_video: bool,
    cursor_shape: u8,
    mouse_mode: u8,
    autowrap: bool,
    saved_row: u16,
    saved_col: u16,
    saved_pen: VTermPen,
    default_fg: VTermColor,
    default_bg: VTermColor,
    palette: Vec<VTermColor>,
    lineinfo: Vec<VTermLineInfo>,
    tabs: Vec<bool>,
}

impl View for VTermState {
    type V = TermStateV;

    closed spec fn view(&self) -> TermStateV {
        TermStateV {
            rows: self.rows as int,
            cols: self.cols as int,
            cur_row: self.cur_row as int,
            cur_col: self.cur_col as int,
            pen: self.pen,
            top: self.top as int,
            bot: self.bot as int,
            cursor_visible: self.cursor_visible,
            cursor_blink: self.cursor_blink,
            alt_screen: self.alt_screen,
            title: self.title@,
            icon_name: self.icon_name@,
            reverse_video: self.reverse_video,
            cursor_shape: self.cursor_shape as int,
            mouse_mode: self.mouse_mode as int,
            autowrap: self.autowrap,
            saved_row: self.saved_row as int,
            saved_col: self.saved_col as int,
            saved_pen: self.saved_pen,
            default_fg: self.default_fg,
            default_bg: self.default_bg,
            palette: self.palette@,
            lineinfo: self.lineinfo@,
            tabs: self.tabs@,
        }
    }
}

impl VTermState {
    pub open spec fn wf(&self) -> bool {
        st_wf(self@)
    }

    pub fn new(rows: u16, cols: u16) -> (s: VTermState)
        requires
            rows >= 1,
            cols >= 1,
        ensures
            s@ == st_init(rows as int, cols as int),
            s.wf(),
    {
        let s = VTermState {
            rows,
            cols,
            cur_row: 0,
            cur_col: 0,
            pen: VTermPen::default(),
            top: 0,
            bot: rows,
            cursor_visible: true,
            cursor_blink: true,
            alt_screen: false,
            title: Vec::new(),
            icon_name: Vec::new(),
            reverse_video: false,
            cursor_shape: 1,
            mouse_mode: 0,
            autowrap: true,
            saved_row: 0,
            saved_col: 0,
            saved_pen: VTermPen::default(),
            default_fg: VTermColor { red: 240, green: 240, blue: 240 },
            default_bg: VTermColor { red: 0, green: 0, blue: 0 },
            palette: make_palette(),
            lineinfo: make_lineinfo(rows),
            tabs: make_tabs(cols),
        };
        proof {
            assert(s@ =~= st_init(rows as int, cols as int));
        }
        s
    }

    fn cursor(&self) -> (p: VTermPos)
        ensures
            p.row as int == self@.cur_row,
            p.col as int == self@.cur_col,
    {
        VTermPos { row: self.cur_row as i32, col: self.cur_col as i32 }
    }

    /// The rectangle of the current scroll region at full width.
    fn region_rect(&self) -> (r: VTermRect)
        ensures
            r.start_row as int == self@.top,
            r.end_row as int == self@.bot,
            r.start_col == 0,
            r.end_col as int == self@.cols,
    {
        VTermRect {
            start_row: self.top as i32,
            end_row: self.bot as i32,
            start_col: 0,
            end_col: self.cols as i32,
        }
    }

    /// Resets the state; see [`st_reset`].
    pub fn reset(&mut self, hard: bool)
        requires
            old(self).wf(),
        ensures
            final(self).wf(),
            final(self)@ == st_reset(old(self)@, hard),
    {
        self.cur_row = 0;
        self.cur_col = 0;
        self.pen = VTermPen::default();
        self.top = 0;
        self.bot = self.rows;
        self.autowrap = true;
        self.lineinfo = make_lineinfo(self.rows);
        self.tabs = make_tabs(self.cols);
        if hard {
            self.cursor_visible = true;
            self.cursor_blink = true;
            self.alt_screen = false;
            self.title = Vec::new();
            self.icon_name = Vec::new();
            self.reverse_video = false;
            self.cursor_shape = 1;
            self.mouse_mode = 0;
            self.saved_row = 0;
            self.saved_col = 0;
            self.saved_pen = VTermPen::default();
            self.default_fg = VTermColor { red: 240, green: 240, blue: 240 };
            self.default_bg = VTermColor { red: 0, green: 0, blue: 0 };
            self.palette = make_palette();
        }
        proof {
            assert(self@ =~= st_reset(old(self)@, hard));
        }
    }

    /// Cursor row advance shared by line feeds and wraps; returns a scroll
    /// action when the cursor sits on the scroll region's last row.
    fn row_down(&mut self) -> (act: Option<StateAction>)
        requires
            old(self).wf(),
        ensures
            final(self).wf(),
            final(self)@ == st_row_down(old(self)@),
            final(self)@.rows == old(self)@.rows,
            final(self)@.cols == old(self)@.cols,
            act is Some ==> act_wf(act->0, final(self)@.rows, final(self)@.cols) && act->0
                is ScrollRect,
    {
        if self.cur_row == self.bot - 1 {
            let rect = self.region_rect();
            Some(StateAction::ScrollRect { rect, downward: 1, rightward: 0 })
        } else if self.cur_row < self.rows - 1 {
            self.cur_row = self.cur_row + 1;
            None
        } else {
            None
        }
    }

    /// Cursor row retreat; returns a backwards scroll action at the region
    /// top.
    fn row_up(&mut self) -> (act: Option<StateAction>)
        requires
            old(self).wf(),
        ensures
            final(self).wf(),
            final(self)@ == st_row_up(old(self)@),
            final(self)@.rows == old(self)@.rows,
            final(self)@.cols == old(self)@.cols,
            act is Some ==> act_wf(act->0, final(self)@.rows, final(self)@.cols) && act->0
                is ScrollRect,
    {
        if self.cur_row == self.top {
            let rect = self.region_rect();
            Some(StateAction::ScrollRect { rect, downward: -1, rightward: 0 })
        } else if self.cur_row > 0 {
            self.cur_row = self.cur_row - 1;
            None
        } else {
            None
        }
    }

    fn ev_text(&mut self, ch: u32) -> (acts: Vec<StateAction>)
        requires
            old(self).wf(),
        ensures
            final(self).wf(),
            final(self)@ == st_text(old(self)@, ch),
            acts_wf(acts@, final(self)@.rows, final(self)@.cols),
            no_reports(acts@),
    {
        let w = char_width_exec(ch);
        let mut acts: Vec<StateAction> = Vec::new();
        let oldp = self.cursor();
        if w == 0 {
            if self.cur_col > 0 {
                acts.push(
                    StateAction::PutCombining {
                        ch,
                        pos: VTermPos { row: self.cur_row as i32, col: (self.cur_col - 1) as i32 },
                    },
                );
            }
        } else {
            acts.push(StateAction::PutGlyph { ch, width: w, pos: oldp, pen: self.pen });
            let nc: u32 = self.cur_col as u32 + w as u32;
            if nc >= self.cols as u32 {
                if self.autowrap {
                    self.cur_col = 0;
                    match self.row_down() {
                        Some(a) => acts.push(a),
                        None => {},
                    }
                    let r: usize = self.cur_row as usize;
                    let li = self.lineinfo[r];
                    self.lineinfo.set(r, VTermLineInfo { continuation: true, ..li });
                } else {
                    self.cur_col = self.cols - 1;
                }
            } else {
                self.cur_col = nc as u16;
            }
            let newp = self.cursor();
            acts.push(StateAction::MoveCursor { oldp, newp, visible: self.cursor_visible });
        }
        proof {
            assert(self@ =~= st_text(old(self)@, ch));
        }
        acts
    }

    fn ev_control(&mut self, b: u8) -> (acts: Vec<StateAction>)
        requires
            old(self).wf(),
        ensures
            final(self).wf(),
            final(self)@ == st_control(old(self)@, b),
            acts_wf(acts@, final(self)@.rows, final(self)@.cols),
            no_reports(acts@),
    {
        let mut acts: Vec<StateAction> = Vec::new();
        let oldp = self.cursor();
        if b == 0x0a || b == 0x0b || b == 0x0c || b == 0x84 {
            match self.row_down() {
                Some(a) => acts.push(a),
                None => {},
            }
        } else if b == 0x0d {
            self.cur_col = 0;
        } else if b == 0x08 {
            if self.cur_col > 0 {
                self.cur_col = self.cur_col - 1;
            }
        } else if b == 0x09 {
            let ghost tabs0 = self.tabs@;
            let mut t: usize = self.cur_col as usize + 1;
            while t < self.cols as usize && !self.tabs[t]
                invariant
                    t <= self.cols as usize,
                    self.tabs@ == tabs0,
                    tabs0.len() == self.cols as int,
                    self@ == old(self)@,
                    next_tab(tabs0, old(self)@.cur_col + 1) == next_tab(tabs0, t as int),
                decreases self.cols as int - t,
            {
                t = t + 1;
            }
            proof {
                lemma_next_tab_bound(tabs0, old(self)@.cur_col + 1);
            }
            self.cur_col = if t >= self.cols as usize {
                self.cols - 1
            } else {
                t as u16
            };
        } else if b == 0x85 {
            self.cur_col = 0;
            match self.row_down() {
                Some(a) => acts.push(a),
                None => {},
            }
        } else if b == 0x8d {
            match self.row_up() {
                Some(a) => acts.push(a),
                None => {},
            }
        } else if b == 0x07 {
            acts.push(StateAction::Bell);
        }
        let newp = self.cursor();
        acts.push(StateAction::MoveCursor { oldp, newp, visible: self.cursor_visible });
        proof {
            assert(self@ =~= st_control(old(self)@, b));
        }
        acts
    }

    fn ev_escape(&mut self, bytes: &Vec<u8>) -> (acts: Vec<StateAction>)
        requires
            old(self).wf(),
        ensures
            final(self).wf(),
            final(self)@ == st_escape(old(self)@, bytes@),
            acts_wf(acts@, final(self)@.rows, final(self)@.cols),
            no_reports(acts@),
    {
        let mut acts: Vec<StateAction> = Vec::new();
        if bytes.len() == 1 {
            let b0 = bytes[0];
            let oldp = self.cursor();
            if b0 == 0x63 {
                self.reset(true);
                let full = VTermRect {
                    start_row: 0,
                    end_row: self.rows as i32,
                    start_col: 0,
                    end_col: self.cols as i32,
                };
                acts.push(StateAction::Erase { rect: full, selective: false, pen: self.pen });
                let newp = self.cursor();
                acts.push(StateAction::MoveCursor { oldp, newp, visible: self.cursor_visible });
            } else if b0 == 0x37 {
                self.saved_row = self.cur_row;
                self.saved_col = self.cur_col;
                self.saved_pen = self.pen;
            } else if b0 == 0x38 {
                self.cur_row = self.saved_row;
                self.cur_col = self.saved_col;
                self.pen = self.saved_pen;
                let newp = self.cursor();
                acts.push(StateAction::MoveCursor { oldp, newp, visible: self.cursor_visible });
            } else if b0 == 0x44 {
                match self.row_down() {
                    Some(a) => acts.push(a),
                    None => {},
                }
                let newp = self.cursor();
                acts.push(StateAction::MoveCursor { oldp, newp, visible: self.cursor_visible });
            } else if b0 == 0x4d {
                match self.row_up() {
                    Some(a) => acts.push(a),
                    None => {},
                }
                let newp = self.cursor();
                acts.push(StateAction::MoveCursor { oldp, newp, visible: self.cursor_visible });
            } else if b0 == 0x45 {
                self.cur_col = 0;
                match self.row_down() {
                    Some(a) => acts.push(a),
                    None => {},
                }
                let newp = self.cursor();
                acts.push(StateAction::MoveCursor { oldp, newp, visible: self.cursor_visible });
            } else if b0 == 0x48 {
                self.tabs.set(self.cur_col as usize, true);
            }
        }
        proof {
            assert(self@ =~= st_escape(old(self)@, bytes@));
        }
        acts
    }

    fn ev_osc(&mut self, payload: &Vec<u8>) -> (acts: Vec<StateAction>)
        requires
            old(self).wf(),
        ensures
            final(self).wf(),
            final(self)@ == st_osc(old(self)@, payload@),
            acts_wf(acts@, final(self)@.rows, final(self)@.cols),
            no_reports(acts@),
    {
        let mut acts: Vec<StateAction> = Vec::new();
        if payload.len() >= 2 && payload[1] == 0x3b {
            let code = payload[0];
            if code == 0x30 || code == 0x31 || code == 0x32 {
                let mut rest: Vec<u8> = Vec::new();
                let mut j: usize = 2;
                while j < payload.len()
                    invariant
                        2 <= j <= payload@.len(),
                        rest@ == payload@.subrange(2, j as int),
                    decreases payload@.len() - j,
                {
                    rest.push(payload[j]);
                    j = j + 1;
                    proof {
                        assert(payload@.subrange(2, j as int) =~= payload@.subrange(
                            2,
                            j - 1,
                        ).push(payload@[j - 1]));
                    }
                }
                proof {
                    assert(rest@ =~= payload@.skip(2));
                }
                if code == 0x30 {
                    self.title = copy_bytes(&rest);
                    acts.push(
                        StateAction::SetTermProp {
                            prop: VTermProp::Title,
                            val: VTermValue::Str { v: copy_bytes(&rest) },
                        },
                    );
                    acts.push(
                        StateAction::SetTermProp {
                            prop: VTermProp::IconName,
                            val: VTermValue::Str { v: copy_bytes(&rest) },
                        },
                    );
                    self.icon_name = rest;
                } else if code == 0x31 {
                    acts.push(
                        StateAction::SetTermProp {
                            prop: VTermProp::IconName,
                            val: VTermValue::Str { v: copy_bytes(&rest) },
                        },
                    );
                    self.icon_name = rest;
                } else {
                    acts.push(
                        StateAction::SetTermProp {
                            prop: VTermProp::Title,
                            val: VTermValue::Str { v: copy_bytes(&rest) },
                        },
                    );
                    self.title = rest;
                }
            }
        }
        proof {
            assert(self@ =~= st_osc(old(self)@, payload@));
        }
        acts
    }

    fn ev_resize(&mut self, r0: u16, c0: u16) -> (acts: Vec<StateAction>)
        requires
            old(self).wf(),
        ensures
            final(self).wf(),
            final(self)@ == st_resize(old(self)@, r0, c0),
            acts_wf(acts@, final(self)@.rows, final(self)@.cols),
            no_reports(acts@),
            acts@.len() == 1 && acts@[0] is Resize,
            acts@.len() == 1 ==> acts@[0]->Resize_rows as int == final(self)@.rows
                && acts@[0]->Resize_cols as int == final(self)@.cols,
    {
        let rows: u16 = if r0 == 0 {
            1
        } else {
            r0
        };
        let cols: u16 = if c0 == 0 {
            1
        } else {
            c0
        };
        self.rows = rows;
        self.cols = cols;
        if self.cur_row > rows - 1 {
            self.cur_row = rows - 1;
        }
        if self.cur_col > cols - 1 {
            self.cur_col = cols - 1;
        }
        if self.saved_row > rows - 1 {
            self.saved_row = rows - 1;
        }
        if self.saved_col > cols - 1 {
            self.saved_col = cols - 1;
        }
        self.top = 0;
        self.bot = rows;
        self.lineinfo = make_lineinfo(rows);
        self.tabs = make_tabs(cols);
        let mut acts: Vec<StateAction> = Vec::new();
        acts.push(StateAction::Resize { rows, cols });
        proof {
            assert(self@ =~= st_resize(old(self)@, r0, c0));
        }
        acts
    }

    /// The erase actions of `CSI J` (modes 0, 1, 2/3).
    fn erase_display_acts(&self, m: u32, selective: bool) -> (acts: Vec<StateAction>)
        requires
            self.wf(),
        ensures
            acts_wf(acts@, self@.rows, self@.cols),
            no_reports(acts@),
    {
        let mut acts: Vec<StateAction> = Vec::new();
        if m == 0 {
            acts.push(
                StateAction::Erase {
                    rect: VTermRect {
                        start_row: self.cur_row as i32,
                        end_row: self.cur_row as i32 + 1,
                        start_col: self.cur_col as i32,
                        end_col: self.cols as i32,
                    },
                    selective,
                    pen: self.pen,
                },
            );
            if self.cur_row + 1 < self.rows {
                acts.push(
                    StateAction::Erase {
                        rect: VTermRect {
                            start_row: self.cur_row as i32 + 1,
                            end_row: self.rows as i32,
                            start_col: 0,
                            end_col: self.cols as i32,
                        },
                        selective,
                        pen: self.pen,
                    },
                );
            }
        } else if m == 1 {
            acts.push(
                StateAction::Erase {
                    rect: VTermRect {
                        start_row: 0,
                        end_row: self.cur_row as i32,
                        start_col: 0,
                        end_col: self.cols as i32,
                    },
                    selective,
                    pen: self.pen,
                },
            );
            acts.push(
                StateAction::Erase {
                    rect: VTermRect {
                        start_row: self.cur_row as i32,
                        end_row: self.cur_row as i32 + 1,
                        start_col: 0,
                        end_col: self.cur_col as i32 + 1,
                    },
                    selective,
                    pen: self.pen,
                },
            );
        } else if m == 2 || m == 3 {
            acts.push(
                StateAction::Erase {
                    rect: VTermRect {
                        start_row: 0,
                        end_row: self.rows as i32,
                        start_col: 0,
                        end_col: self.cols as i32,
                    },
                    selective,
                    pen: self.pen,
                },
            );
        }
        acts
    }

    /// The erase action of `CSI K` (modes 0, 1, 2).
    fn erase_line_acts(&self, m: u32, selective: bool) -> (acts: Vec<StateAction>)
        requires
            self.wf(),
        ensures
            acts_wf(acts@, self@.rows, self@.cols),
            no_reports(acts@),
    {
        let mut acts: Vec<StateAction> = Vec::new();
        let (sc, ec): (i32, i32) = if m == 0 {
            (self.cur_col as i32, self.cols as i32)
        } else if m == 1 {
            (0, self.cur_col as i32 + 1)
        } else {
            (0, self.cols as i32)
        };
        if m <= 2 {
            acts.push(
                StateAction::Erase {
                    rect: VTermRect {
                        start_row: self.cur_row as i32,
                        end_row: self.cur_row as i32 + 1,
                        start_col: sc,
                        end_col: ec,
                    },
                    selective,
                    pen: self.pen,
                },
            );
        }
        acts
    }

    #[verifier::rlimit(100)]
    fn ev_csi(
        &mut self,
        leader: &Vec<u8>,
        params: &Vec<CsiParam>,
        inters: &Vec<u8>,
        fb: u8,
    ) -> (acts: Vec<StateAction>)
        requires
            old(self).wf(),
        ensures
            final(self).wf(),
            final(self)@ == st_csi(old(self)@, leader@, params@, inters@, fb),
            acts_wf(acts@, final(self)@.rows, final(self)@.cols),
            (leader@.len() == 0 && inters@.len() == 0 && fb == 0x6e && pval(params@, 0) == 6)
                ==> acts@.len() == 1 && acts@[0] is Report && acts@[0]->Report_bytes@ == dsr_bytes(
                old(self)@.cur_row,
                old(self)@.cur_col,
            ),
            !(leader@.len() == 0 && inters@.len() == 0 && fb == 0x6e && pval(params@, 0) == 6)
                ==> no_reports(acts@),
    {
        let mut acts: Vec<StateAction> = Vec::new();
        let oldp = self.cursor();
        if leader.len() == 0 && inters.len() == 0 {
            let n = get_pdef1(params, 0);
            if fb == 0x41 {
                let lo = if self.cur_row >= self.top {
                    self.top
                } else {
                    0
                };
                self.cur_row = clamp_sub(self.cur_row, n, lo, self.rows - 1);
                let newp = self.cursor();
                acts.push(StateAction::MoveCursor { oldp, newp, visible: self.cursor_visible });
            } else if fb == 0x42 {
                let hi = if self.cur_row < self.bot {
                    self.bot - 1
                } else {
                    self.rows - 1
                };
                self.cur_row = clamp_add(self.cur_row, n, 0, hi);
                let newp = self.cursor();
                acts.push(StateAction::MoveCursor { oldp, newp, visible: self.cursor_visible });
            } else if fb == 0x43 {
                self.cur_col = clamp_add(self.cur_col, n, 0, self.cols - 1);
                let newp = self.cursor();
                acts.push(StateAction::MoveCursor { oldp, newp, visible: self.cursor_visible });
            } else if fb == 0x44 {
                self.cur_col = clamp_sub(self.cur_col, n, 0, self.cols - 1);
                let newp = self.cursor();
                acts.push(StateAction::MoveCursor { oldp, newp, visible: self.cursor_visible });
            } else if fb == 0x45 {
                let hi = if self.cur_row < self.bot {
                    self.bot - 1
                } else {
                    self.rows - 1
                };
                self.cur_row = clamp_add(self.cur_row, n, 0, hi);
                self.cur_col = 0;
                let newp = self.cursor();
                acts.push(StateAction::MoveCursor { oldp, newp, visible: self.cursor_visible });
            } else if fb == 0x46 {
                let lo = if self.cur_row >= self.top {
                    self.top
                } else {
                    0
                };
                self.cur_row = clamp_sub(self.cur_row, n, lo, self.rows - 1);
                self.cur_col = 0;
                let newp = self.cursor();
                acts.push(StateAction::MoveCursor { oldp, newp, visible: self.cursor_visible });
            } else if fb == 0x47 || fb == 0x60 {
                self.cur_col = from_1based(n, self.cols - 1);
                let newp = self.cursor();
                acts.push(StateAction::MoveCursor { oldp, newp, visible: self.cursor_visible });
            } else if fb == 0x64 {
                self.cur_row = from_1based(n, self.rows - 1);
                let newp = self.cursor();
                acts.push(StateAction::MoveCursor { oldp, newp, visible: self.cursor_visible });
            } else if fb == 0x48 || fb == 0x66 {
                self.cur_row = from_1based(n, self.rows - 1);
                let nc = get_pdef1(params, 1);
                self.cur_col = from_1based(nc, self.cols - 1);
                let newp = self.cursor();
                acts.push(StateAction::MoveCursor { oldp, newp, visible: self.cursor_visible });
            } else if fb == 0x4a {
                // ED: erase in display.
                let m = get_p(params, 0);
                let mut more = self.erase_display_acts(m, false);
                acts.append(&mut more);
            } else if fb == 0x4b {
                // EL: erase in line.
                let m = get_p(params, 0);
                let mut more = self.erase_line_acts(m, false);
                acts.append(&mut more);
            } else if fb == 0x40 {
                // ICH: open a gap at the cursor; row content moves right.
                let d: i32 = if n > 0x8000 {
                    0x8000
                } else {
                    n as i32
                };
                let rect = VTermRect {
                    start_row: self.cur_row as i32,
                    end_row: self.cur_row as i32 + 1,
                    start_col: self.cur_col as i32,
                    end_col: self.cols as i32,
                };
                acts.push(StateAction::ScrollRect { rect, downward: 0, rightward: -d });
            } else if fb == 0x50 {
                // DCH: delete at the cursor; row content moves left.
                let d: i32 = if n > 0x8000 {
                    0x8000
                } else {
                    n as i32
                };
                let rect = VTermRect {
                    start_row: self.cur_row as i32,
                    end_row: self.cur_row as i32 + 1,
                    start_col: self.cur_col as i32,
                    end_col: self.cols as i32,
                };
                acts.push(StateAction::ScrollRect { rect, downward: 0, rightward: d });
            } else if fb == 0x4c {
                // IL: insert lines; rows from the cursor to the region
                // bottom move down.
                if self.cur_row >= self.top && self.cur_row < self.bot {
                    let d: i32 = if n > 0x8000 {
                        0x8000
                    } else {
                        n as i32
                    };
                    let rect = VTermRect {
                        start_row: self.cur_row as i32,
                        end_row: self.bot as i32,
                        start_col: 0,
                        end_col: self.cols as i32,
                    };
                    acts.push(StateAction::ScrollRect { rect, downward: -d, rightward: 0 });
                }
            } else if fb == 0x4d {
                // DL: delete lines; rows below the cursor move up.
                if self.cur_row >= self.top && self.cur_row < self.bot {
                    let d: i32 = if n > 0x8000 {
                        0x8000
                    } else {
                        n as i32
                    };
                    let rect = VTermRect {
                        start_row: self.cur_row as i32,
                        end_row: self.bot as i32,
                        start_col: 0,
                        end_col: self.cols as i32,
                    };
                    acts.push(StateAction::ScrollRect { rect, downward: d, rightward: 0 });
                }
            } else if fb == 0x58 {
                // ECH: erase the next n cells on the cursor row.
                let e: u64 = if self.cur_col as u64 + n as u64 > self.cols as u64 {
                    self.cols as u64
                } else {
                    self.cur_col as u64 + n as u64
                };
                let rect = VTermRect {
                    start_row: self.cur_row as i32,
                    end_row: self.cur_row as i32 + 1,
                    start_col: self.cur_col as i32,
                    end_col: e as i32,
                };
                acts.push(StateAction::Erase { rect, selective: false, pen: self.pen });
            } else if fb == 0x67 {
                let m = get_p(params, 0);
                if m == 0 {
                    self.tabs.set(self.cur_col as usize, false);
                } else if m == 3 {
                    let mut cleared: Vec<bool> = Vec::new();
                    let mut c: u16 = 0;
                    while c < self.cols
                        invariant
                            c <= self.cols,
                            cleared@.len() == c,
                            forall|k: int| 0 <= k < c ==> !cleared@[k],
                        decreases self.cols - c,
                    {
                        cleared.push(false);
                        c = c + 1;
                    }
                    proof {
                        assert(cleared@ =~= Seq::new(
                            old(self)@.tabs.len(),
                            |i: int| false,
                        ));
                    }
                    self.tabs = cleared;
                }
            } else if fb == 0x6d {
                self.pen = pen_apply_sgr(self.pen, params);
            } else if fb == 0x72 {
                let t = get_pdef1(params, 0);
                let braw = get_p(params, 1);
                let b: u16 = if braw == 0 || braw > self.rows as u32 {
                    self.rows
                } else {
                    braw as u16
                };
                if t <= b as u32 {
                    self.top = (t - 1) as u16;
                    self.bot = b;
                    self.cur_row = 0;
                    self.cur_col = 0;
                    let newp = self.cursor();
                    acts.push(
                        StateAction::MoveCursor { oldp, newp, visible: self.cursor_visible },
                    );
                }
            } else if fb == 0x6e {
                if get_p(params, 0) == 6 {
                    let mut bytes: Vec<u8> = Vec::new();
                    bytes.push(0x1b);
                    bytes.push(0x5b);
                    let mut r1 = u32_dec(self.cur_row as u32 + 1);
                    bytes.append(&mut r1);
                    bytes.push(0x3b);
                    let mut c1 = u32_dec(self.cur_col as u32 + 1);
                    bytes.append(&mut c1);
                    bytes.push(0x52);
                    proof {
                        assert(bytes@ =~= dsr_bytes(old(self)@.cur_row, old(self)@.cur_col));
                    }
                    acts.push(StateAction::Report { bytes });
                }
            } else if fb == 0x53 {
                let d: i32 = if n > 0x8000 {
                    0x8000
                } else {
                    n as i32
                };
                let rect = self.region_rect();
                acts.push(StateAction::ScrollRect { rect, downward: d, rightward: 0 });
            } else if fb == 0x54 {
                let d: i32 = if n > 0x8000 {
                    0x8000
                } else {
                    n as i32
                };
                let rect = self.region_rect();
                acts.push(StateAction::ScrollRect { rect, downward: -d, rightward: 0 });
            }
        } else if leader.len() == 1 && inters.len() == 0 && (fb == 0x4a || fb == 0x4b) {
            // DECSED / DECSEL: selective erase, same rectangles with the
            // selective flag raised.
            if leader[0] == 0x3f {
                let m = get_p(params, 0);
                let mut more = if fb == 0x4a {
                    self.erase_display_acts(m, true)
                } else {
                    self.erase_line_acts(m, true)
                };
                acts.append(&mut more);
            }
        } else if leader.len() == 1 && inters.len() == 0 && (fb == 0x68 || fb == 0x6c) {
            if leader[0] == 0x3f {
                let set = fb == 0x68;
                let ghost s0 = self@;
                let mut i: usize = 0;
                while i < params.len()
                    invariant
                        i <= params@.len(),
                        st_wf(self@),
                        dec_modes(s0, params@, 0, set) == dec_modes(self@, params@, i as int, set),
                        self@.rows == s0.rows,
                        self@.cols == s0.cols,
                        acts_wf(acts@, self@.rows, self@.cols),
                        no_reports(acts@),
                    decreases params@.len() - i,
                {
                    let ghost prev = self@;
                    let num = params[i].value;
                    if num == 5 {
                        self.reverse_video = set;
                        acts.push(
                            StateAction::SetTermProp {
                                prop: VTermProp::Reverse,
                                val: VTermValue::Bool { v: set },
                            },
                        );
                    } else if num == 7 {
                        self.autowrap = set;
                    } else if num == 12 {
                        self.cursor_blink = set;
                        acts.push(
                            StateAction::SetTermProp {
                                prop: VTermProp::CursorBlink,
                                val: VTermValue::Bool { v: set },
                            },
                        );
                    } else if num == 25 {
                        self.cursor_visible = set;
                        acts.push(
                            StateAction::SetTermProp {
                                prop: VTermProp::CursorVisible,
                                val: VTermValue::Bool { v: set },
                            },
                        );
                    } else if num == 47 || num == 1047 {
                        self.alt_screen = set;
                        acts.push(
                            StateAction::SetTermProp {
                                prop: VTermProp::AltScreen,
                                val: VTermValue::Bool { v: set },
                            },
                        );
                    } else if num == 1049 {
                        if set {
                            self.saved_row = self.cur_row;
                            self.saved_col = self.cur_col;
                            self.saved_pen = self.pen;
                            self.alt_screen = true;
                        } else {
                            self.alt_screen = false;
                            self.cur_row = self.saved_row;
                            self.cur_col = self.saved_col;
                            self.pen = self.saved_pen;
                        }
                        acts.push(
                            StateAction::SetTermProp {
                                prop: VTermProp::AltScreen,
                                val: VTermValue::Bool { v: set },
                            },
                        );
                    } else if num == 1000 {
                        self.mouse_mode = if set {
                            1
                        } else {
                            0
                        };
                        acts.push(
                            StateAction::SetTermProp {
                                prop: VTermProp::Mouse,
                                val: VTermValue::Int {
                                    v: if set {
                                        1
                                    } else {
                                        0
                                    },
                                },
                            },
                        );
                    } else if num == 1002 {
                        self.mouse_mode = if set {
                            2
                        } else {
                            0
                        };
                        acts.push(
                            StateAction::SetTermProp {
                                prop: VTermProp::Mouse,
                                val: VTermValue::Int {
                                    v: if set {
                                        2
                                    } else {
                                        0
                                    },
                                },
                            },
                        );
                    } else if num == 1003 {
                        self.mouse_mode = if set {
                            3
                        } else {
                            0
                        };
                        acts.push(
                            StateAction::SetTermProp {
                                prop: VTermProp::Mouse,
                                val: VTermValue::Int {
                                    v: if set {
                                        3
                                    } else {
                                        0
                                    },
                                },
                            },
                        );
                    }
                    i = i + 1;
                    proof {
                        assert(self@ =~= dec_mode_one(prev, num, set));
                    }
                }
            }
        } else if leader.len() == 0 && inters.len() == 1 && fb == 0x71 {
            if inters[0] == 0x20 {
                let v = get_p(params, 0);
                self.cursor_shape = if v <= 6 {
                    v as u8
                } else {
                    6
                };
            }
        } else if leader.len() == 0 && inters.len() == 1 && fb == 0x70 {
            if inters[0] == 0x21 {
                self.reset(false);
            }
        }
        proof {
            assert(self@ =~= st_csi(old(self)@, leader@, params@, inters@, fb));
        }
        acts
    }

    /// Interprets one parser event: the state change is exactly
    /// [`st_step`], and every returned action stays inside the (possibly
    /// new) grid bounds.  A `CSI 6 n` cursor-position query returns exactly
    /// one report action carrying [`dsr_bytes`] of the current cursor.
    pub fn handle_event(&mut self, ev: &VTermEvent) -> (acts: Vec<StateAction>)
        requires
            old(self).wf(),
        ensures
            final(self).wf(),
            final(self)@ == st_step(old(self)@, ev@),
            acts_wf(acts@, final(self)@.rows, final(self)@.cols),
            is_dsr_query(ev@) ==> acts@.len() == 1 && acts@[0] is Report
                && acts@[0]->Report_bytes@ == dsr_bytes(old(self)@.cur_row, old(self)@.cur_col),
            !is_dsr_query(ev@) ==> no_reports(acts@),
            ev@ is Resize ==> acts@.len() == 1 && acts@[0] is Resize
                && acts@[0]->Resize_rows as int == final(self)@.rows
                && acts@[0]->Resize_cols as int == final(self)@.cols,
    {
        match ev {
            VTermEvent::Text { ch } => self.ev_text(*ch),
            VTermEvent::Control { byte } => self.ev_control(*byte),
            VTermEvent::Escape { bytes } => self.ev_escape(bytes),
            VTermEvent::Csi { leader, params, inters, final_byte } => self.ev_csi(
                leader,
                params,
                inters,
                *final_byte,
            ),
            VTermEvent::Osc { payload } => self.ev_osc(payload),
            VTermEvent::Dcs { .. } => Vec::new(),
            VTermEvent::Resize { rows, cols } => self.ev_resize(*rows, *cols),
        }
    }

    /// Current cursor position; a pure read.
    pub fn get_cursorpos(&self) -> (p: VTermPos)
        ensures
            p.row as int == self@.cur_row,
            p.col as int == self@.cur_col,
    {
        self.cursor()
    }

    pub fn get_size(&self) -> (r: (u16, u16))
        ensures
            r.0 as int == self@.rows,
            r.1 as int == self@.cols,
    {
        (self.rows, self.cols)
    }

    /// Current scroll region rows `[top, bot)`.
    pub fn get_scroll_region(&self) -> (r: (u16, u16))
        ensures
            r.0 as int == self@.top,
            r.1 as int == self@.bot,
    {
        (self.top, self.bot)
    }

    pub fn get_default_colors(&self) -> (r: (VTermColor, VTermColor))
        ensures
            r.0 == self@.default_fg,
            r.1 == self@.default_bg,
    {
        (self.default_fg, self.default_bg)
    }

    pub fn set_default_colors(&mut self, fg: VTermColor, bg: VTermColor)
        ensures
            final(self)@ == (TermStateV { default_fg: fg, default_bg: bg, ..old(self)@ }),
    {
        self.default_fg = fg;
        self.default_bg = bg;
        proof {
            assert(self@ =~= (TermStateV { default_fg: fg, default_bg: bg, ..old(self)@ }));
        }
    }

    /// Palette entry `index`, or `None` past the 256 entries.
    pub fn get_palette_color(&self, index: u16) -> (r: Option<VTermColor>)
        requires
            self.wf(),
        ensures
            index < 256 ==> r == Some(self@.palette[index as int]),
            index >= 256 ==> r is None,
    {
        if index < 256 {
            Some(self.palette[index as usize])
        } else {
            None
        }
    }

    /// Overwrites palette entry `index`; entries past 256 are refused.
    pub fn set_palette_color(&mut self, index: u16, col: VTermColor) -> (ok: bool)
        requires
            old(self).wf(),
        ensures
            final(self).wf(),
            ok == (index < 256),
            ok ==> final(self)@ == (TermStateV {
                palette: old(self)@.palette.update(index as int, col),
                ..old(self)@
            }),
            !ok ==> final(self)@ == old(self)@,
    {
        if index < 256 {
            self.palette.set(index as usize, col);
            proof {
                assert(self@ =~= (TermStateV {
                    palette: old(self)@.palette.update(index as int, col),
                    ..old(self)@
                }));
            }
            true
        } else {
            proof {
                assert(self@ =~= old(self)@);
            }
            false
        }
    }

    /// Reads one pen attribute as a tagged value; a pure read.
    pub fn get_penattr(&self, attr: VTermAttr) -> (r: VTermValue)
        ensures
            r == (match attr {
                VTermAttr::Bold => VTermValue::Bool { v: self@.pen.bold },
                VTermAttr::Underline => VTermValue::Int { v: self@.pen.underline as i32 },
                VTermAttr::Italic => VTermValue::Bool { v: self@.pen.italic },
                VTermAttr::Blink => VTermValue::Bool { v: self@.pen.blink },
                VTermAttr::Reverse => VTermValue::Bool { v: self@.pen.reverse },
                VTermAttr::Strike => VTermValue::Bool { v: self@.pen.strike },
                VTermAttr::Font => VTermValue::Int { v: self@.pen.font as i32 },
                VTermAttr::Foreground => VTermValue::Color { v: self@.pen.fg },
                VTermAttr::Background => VTermValue::Color { v: self@.pen.bg },
            }),
    {
        pen_get_attr(&self.pen, attr)
    }

    /// Reads one terminal property as a tagged value; a pure read.
    pub fn get_termprop(&self, prop: VTermProp) -> (r: VTermValue)
        ensures
            match prop {
                VTermProp::CursorVisible => r == VTermValue::Bool { v: self@.cursor_visible },
                VTermProp::CursorBlink => r == VTermValue::Bool { v: self@.cursor_blink },
                VTermProp::AltScreen => r == VTermValue::Bool { v: self@.alt_screen },
                VTermProp::Title => r is Str && r->Str_v@ == self@.title,
                VTermProp::IconName => r is Str && r->Str_v@ == self@.icon_name,
                VTermProp::Reverse => r == VTermValue::Bool { v: self@.reverse_video },
                VTermProp::CursorShape => r == VTermValue::Int { v: self@.cursor_shape as i32 },
                VTermProp::Mouse => r == VTermValue::Int { v: self@.mouse_mode as i32 },
            },
    {
        match prop {
            VTermProp::CursorVisible => VTermValue::Bool { v: self.cursor_visible },
            VTermProp::CursorBlink => VTermValue::Bool { v: self.cursor_blink },
            VTermProp::AltScreen => VTermValue::Bool { v: self.alt_screen },
            VTermProp::Title => VTermValue::Str { v: copy_bytes(&self.title) },
            VTermProp::IconName => VTermValue::Str { v: copy_bytes(&self.icon_name) },
            VTermProp::Reverse => VTermValue::Bool { v: self.reverse_video },
            VTermProp::CursorShape => VTermValue::Int { v: self.cursor_shape as i32 },
            VTermProp::Mouse => VTermValue::Int { v: self.mouse_mode as i32 },
        }
    }

    /// Whether the alternate screen is active.
    pub fn is_alt_screen(&self) -> (r: bool)
        ensures
            r == self@.alt_screen,
    {
        self.alt_screen
    }

    /// Resolves a pen color to concrete RGB: a palette index through the
    /// 256-entry palette, the default sentinel through the default
    /// foreground or background (`is_bg` selects which slot the color
    /// occupies), and a direct RGB value as itself.
    pub fn convert_color_to_rgb(&self, c: PenColor, is_bg: bool) -> (r: VTermColor)
        requires
            self.wf(),
        ensures
            r == color_to_rgb(self@, c, is_bg),
    {
        match c {
            PenColor::Default => if is_bg {
                self.default_bg
            } else {
                self.default_fg
            },
            PenColor::Idx { idx } => self.palette[idx as usize],
            PenColor::Rgb { color } => color,
        }
    }

    /// Per-row metadata for `row`, or `None` outside the grid.
    pub fn get_lineinfo(&self, row: u16) -> (r: Option<VTermLineInfo>)
        requires
            self.wf(),
        ensures
            (row as int) < self@.rows ==> r == Some(self@.lineinfo[row as int]),
            (row as int) >= self@.rows ==> r is None,
    {
        if row < self.rows {
            Some(self.lineinfo[row as usize])
        } else {
            None
        }
    }
}

} // verus!
