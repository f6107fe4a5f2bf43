//! The screen layer: a concrete grid of cells kept in step with the state
//! layer, damage tracking with a configurable merge granularity, and a
//! scrollback buffer fed by rows evicted from the top of the grid.

use vstd::prelude::*;
use vstd::pervasive::VecAdditionalExecFns;
use vstd::arithmetic::div_mod::lemma_fundamental_div_mod_converse;
use crate::geom::{rect_contains_spec, VTermPos, VTermRect};
use crate::parser::VTermEvent;
use crate::pen::VTermPen;
use crate::state::{
    act_wf, acts_wf, dsr_bytes, rect_in_grid, st_step, st_wf, StateAction, TermStateV, VTermState,
};

verus! {

/// Most codepoints one cell can hold (a base character plus combining
/// marks).
pub const VTERM_MAX_CHARS_PER_CELL: usize = 6;

/// One grid cell: its codepoints, its display width, and the pen it was
/// written under (the pen carries the colors).
#[derive(Clone, Copy, Debug)]
pub struct VTermScreenCell {
    pub chars: [u32; VTERM_MAX_CHARS_PER_CELL],
    pub num_chars: u8,
    pub width: u8,
    pub pen: VTermPen,
}

/// Mathematical image of a cell: just the codepoints in use, the width and
/// the pen.
#[verifier::ext_equal]
pub struct CellV {
    pub chars: Seq<u32>,
    pub width: u8,
    pub pen: VTermPen,
}

impl View for VTermScreenCell {
    type V = CellV;

    open spec fn view(&self) -> CellV {
        CellV {
            chars: self.chars@.take(
                if self.num_chars <= 6 {
                    self.num_chars as int
                } else {
                    6
                },
            ),
            width: self.width,
            pen: self.pen,
        }
    }
}

/// A blank cell carrying `pen`'s colors: what erasure leaves behind.
pub open spec fn erased_cell(pen: VTermPen) -> CellV {
    CellV { chars: Seq::empty(), width: 1, pen }
}

/// The glyph information handed to a put-glyph operation: codepoints,
/// display width, and the DEC protected/double-width/double-height flags.
#[derive(Clone, Debug)]
pub struct VTermGlyphInfo {
    pub chars: Vec<u32>,
    pub width: u8,
    pub protected: bool,
    pub dwl: bool,
    pub dhl: u8,
}

/// Damage merge granularity.
#[derive(Clone, Copy, PartialEq, Eq, Structural, Debug)]
pub enum VTermDamageSize {
    /// Every mutated cell reported separately.
    Cell,
    /// Damage widened to entire rows.
    Row,
    /// One whole-screen damage event.
    Screen,
    /// One whole-screen damage event, scrolls included.
    Scroll,
}

/// Selects the pen attributes an extent query compares.
#[derive(Clone, Copy, PartialEq, Eq, Structural, Debug)]
pub struct VTermAttrMask {
    pub bold: bool,
    pub underline: bool,
    pub italic: bool,
    pub blink: bool,
    pub reverse: bool,
    pub strike: bool,
    pub font: bool,
    pub foreground: bool,
    pub background: bool,
}

/// Recording one damaged rectangle under a merge mode: cell granularity
/// keeps the rectangle, row granularity widens it to full rows, screen
/// granularity just raises the whole-screen flag.
pub open spec fn dmg_record(
    all: bool,
    list: Seq<VTermRect>,
    rect: VTermRect,
    mode: VTermDamageSize,
    cols: int,
) -> (bool, Seq<VTermRect>) {
    match mode {
        VTermDamageSize::Cell => (all, list.push(rect)),
        VTermDamageSize::Row => (
            all,
            list.push(
                VTermRect {
                    start_row: rect.start_row,
                    end_row: rect.end_row,
                    start_col: 0,
                    end_col: cols as i32,
                },
            ),
        ),
        VTermDamageSize::Screen => (true, list),
        VTermDamageSize::Scroll => (true, list),
    }
}

/// What a flush hands the renderer: the whole screen when the flag is
/// raised, plus every recorded rectangle.
pub open spec fn dmg_flush(
    all: bool,
    list: Seq<VTermRect>,
    rows: int,
    cols: int,
) -> Seq<VTermRect> {
    if all {
        seq![
            VTermRect { start_row: 0, end_row: rows as i32, start_col: 0, end_col: cols as i32 },
        ] + list
    } else {
        list
    }
}

/// [`dmg_record`] folded over a sequence of damaged rectangles.
pub open spec fn dmg_record_all(
    all: bool,
    list: Seq<VTermRect>,
    rects: Seq<VTermRect>,
    mode: VTermDamageSize,
    cols: int,
) -> (bool, Seq<VTermRect>)
    decreases rects.len(),
{
    if rects.len() == 0 {
        (all, list)
    } else {
        let d = dmg_record(all, list, rects[0], mode, cols);
        dmg_record_all(d.0, d.1, rects.drop_first(), mode, cols)
    }
}

/// Under screen granularity, any number of recorded rectangles leaves the
/// list empty and only raises the flag: a flush yields exactly one event
/// covering the whole screen.
pub proof fn lemma_damage_screen_merge(rects: Seq<VTermRect>, rows: int, cols: int)
    requires
        rects.len() > 0,
    ensures
        dmg_flush(
            dmg_record_all(false, Seq::empty(), rects, VTermDamageSize::Screen, cols).0,
            dmg_record_all(false, Seq::empty(), rects, VTermDamageSize::Screen, cols).1,
            rows,
            cols,
        ) == seq![
            VTermRect { start_row: 0, end_row: rows as i32, start_col: 0, end_col: cols as i32 },
        ],
{
    lemma_damage_screen_fold(true, Seq::empty(), rects.drop_first(), cols);
    assert(dmg_flush(
        true,
        Seq::<VTermRect>::empty(),
        rows,
        cols,
    ) =~= seq![
        VTermRect { start_row: 0, end_row: rows as i32, start_col: 0, end_col: cols as i32 },
    ]);
}

proof fn lemma_damage_screen_fold(all: bool, list: Seq<VTermRect>, rects: Seq<VTermRect>, cols: int)
    ensures
        dmg_record_all(all, list, rects, VTermDamageSize::Screen, cols).0 == (all || rects.len()
            > 0),
        dmg_record_all(all, list, rects, VTermDamageSize::Screen, cols).1 == list,
    decreases rects.len(),
{
    if rects.len() > 0 {
        lemma_damage_screen_fold(true, list, rects.drop_first(), cols);
    }
}

/// Under cell granularity, recorded rectangles are reported exactly as they
/// were recorded, in order: N single-cell writes flush as those N
/// rectangles.
pub proof fn lemma_damage_cell_exact(rects: Seq<VTermRect>, rows: int, cols: int)
    ensures
        dmg_flush(
            dmg_record_all(false, Seq::empty(), rects, VTermDamageSize::Cell, cols).0,
            dmg_record_all(false, Seq::empty(), rects, VTermDamageSize::Cell, cols).1,
            rows,
            cols,
        ) == rects,
{
    lemma_damage_cell_fold(false, Seq::empty(), rects, cols);
    assert(Seq::<VTermRect>::empty() + rects =~= rects);
}

proof fn lemma_damage_cell_fold(all: bool, list: Seq<VTermRect>, rects: Seq<VTermRect>, cols: int)
    ensures
        dmg_record_all(all, list, rects, VTermDamageSize::Cell, cols).0 == all,
        dmg_record_all(all, list, rects, VTermDamageSize::Cell, cols).1 == list + rects,
    decreases rects.len(),
{
    if rects.len() == 0 {
        assert(list + rects =~= list);
    } else {
        lemma_damage_cell_fold(all, list.push(rects[0]), rects.drop_first(), cols);
        assert(list.push(rects[0]) + rects.drop_first() =~= list + rects);
    }
}

/// Containment of a flat index's position in a rectangle.
pub open spec fn idx_in_rect(i: int, cols: int, rect: VTermRect) -> bool {
    rect_contains_spec(rect, VTermPos { row: (i / cols) as i32, col: (i % cols) as i32 })
}

/// The grid after erasing `rect` to blank cells under `pen`.
pub open spec fn grid_erase(
    g: Seq<CellV>,
    cols: int,
    rect: VTermRect,
    pen: VTermPen,
) -> Seq<CellV> {
    Seq::new(
        g.len(),
        |i: int|
            if idx_in_rect(i, cols, rect) {
                erased_cell(pen)
            } else {
                g[i]
            },
    )
}

/// The grid after scrolling the content of `rect` by `(dr, dc)`: the cell
/// at `p` takes the former content of `p + (dr, dc)` when that position is
/// still inside `rect`, and is erased otherwise; cells outside `rect` keep
/// their content.
pub open spec fn grid_scroll(
    g: Seq<CellV>,
    cols: int,
    rect: VTermRect,
    dr: int,
    dc: int,
    pen: VTermPen,
) -> Seq<CellV> {
    Seq::new(
        g.len(),
        |i: int|
            if idx_in_rect(i, cols, rect) {
                let sr = i / cols + dr;
                let sc = i % cols + dc;
                if rect_contains_spec(
                    rect,
                    VTermPos { row: sr as i32, col: sc as i32 },
                ) && 0 <= sr * cols + sc < g.len() {
                    g[sr * cols + sc]
                } else {
                    erased_cell(pen)
                }
            } else {
                g[i]
            },
    )
}

/// Flat index of a row/column pair.
pub proof fn lemma_rowcol(r: int, c: int, cols: int)
    requires
        0 <= r,
        0 <= c < cols,
    ensures
        (r * cols + c) / cols == r,
        (r * cols + c) % cols == c,
{
    lemma_fundamental_div_mod_converse(r * cols + c, cols, r, c);
}

/// Scroll conservation: scrolling a region up by `n` and then down by `n`
/// erases the `n` rows nearest the region's top edge and restores every
/// other cell of the grid exactly.
pub proof fn lemma_scroll_round_trip(
    g: Seq<CellV>,
    rows: int,
    cols: int,
    rect: VTermRect,
    n: int,
    pen: VTermPen,
)
    requires
        g.len() == rows * cols,
        1 <= cols,
        1 <= rows <= 0xffff,
        cols <= 0xffff,
        rect_in_grid(rect, rows, cols),
        0 < n <= 0x8000,
    ensures
        ({
            let g2 = grid_scroll(
                grid_scroll(g, cols, rect, n, 0, pen),
                cols,
                rect,
                -n,
                0,
                pen,
            );
            forall|i: int|
                0 <= i < g.len() ==> #[trigger] g2[i] == if idx_in_rect(i, cols, rect) && i / cols
                    < rect.start_row + n {
                    erased_cell(pen)
                } else {
                    g[i]
                }
        }),
{
    let g1 = grid_scroll(g, cols, rect, n, 0, pen);
    let g2 = grid_scroll(g1, cols, rect, -n, 0, pen);
    assert forall|i: int| 0 <= i < g.len() implies #[trigger] g2[i] == if idx_in_rect(i, cols, rect)
        && i / cols < rect.start_row + n {
        erased_cell(pen)
    } else {
        g[i]
    } by {
        let r = i / cols;
        let c = i % cols;
        vstd::arithmetic::div_mod::lemma_fundamental_div_mod(i, cols);
        vstd::arithmetic::div_mod::lemma_mod_division_less_than_divisor(i, cols);
        vstd::arithmetic::div_mod::lemma_div_pos_is_pos(i, cols);
        assert(r < rows) by (nonlinear_arith)
            requires
                cols * r + c == i,
                i < rows * cols,
                0 <= c,
                1 <= cols,
        ;
        if idx_in_rect(i, cols, rect) {
            let sr = r - n;
            if rect_contains_spec(rect, VTermPos { row: sr as i32, col: c as i32 }) {
                // The source of the downward scroll lies inside the region:
                // its content came from the upward scroll of row sr + n == r.
                let j = sr * cols + c;
                lemma_rowcol(sr, c, cols);
                assert(0 <= j < g.len()) by (nonlinear_arith)
                    requires
                        j == sr * cols + c,
                        0 <= sr < rows,
                        0 <= c < cols,
                        g.len() == rows * cols,
                ;
                assert(cols * r + c == r * cols + c) by (nonlinear_arith);
                assert(g1[j] == g[i]);
            }
        }
    }
}

/// The cells of row `r`.
pub open spec fn row_of(g: Seq<CellV>, r: int, cols: int) -> Seq<CellV> {
    Seq::new(cols as nat, |c: int| g[r * cols + c])
}

/// Scrollback after pushing rows `j..k` of the grid, oldest first, keeping
/// at most `max` rows.
pub open spec fn sb_after_push(
    sb: Seq<Seq<CellV>>,
    g: Seq<CellV>,
    cols: int,
    j: int,
    k: int,
    max: int,
) -> Seq<Seq<CellV>>
    decreases k - j,
{
    if j >= k {
        sb
    } else {
        let sb1 = if sb.len() >= max {
            sb.drop_first()
        } else {
            sb
        };
        sb_after_push(sb1.push(row_of(g, j, cols)), g, cols, j + 1, k, max)
    }
}

/// The grid with row `r` replaced by `row` (padded with erased cells when
/// the stored row is shorter than the grid is wide).
pub open spec fn write_row(
    g: Seq<CellV>,
    r: int,
    row: Seq<CellV>,
    cols: int,
    pen: VTermPen,
) -> Seq<CellV> {
    Seq::new(
        g.len(),
        |i: int|
            if r * cols <= i < (r + 1) * cols {
                if i - r * cols < row.len() {
                    row[i - r * cols]
                } else {
                    erased_cell(pen)
                }
            } else {
                g[i]
            },
    )
}

/// Restores up to `n` vacated top rows from scrollback: row `n-1` takes the
/// most recently evicted row, and so on upward until scrollback runs out.
pub open spec fn sb_restore(
    g: Seq<CellV>,
    sb: Seq<Seq<CellV>>,
    n: int,
    cols: int,
    pen: VTermPen,
) -> (Seq<CellV>, Seq<Seq<CellV>>)
    decreases n,
{
    if n <= 0 || sb.len() == 0 {
        (g, sb)
    } else {
        let g1 = write_row(g, n - 1, sb.last(), cols, pen);
        sb_restore(g1, sb.drop_last(), n - 1, cols, pen)
    }
}

pub open spec fn cells_view(v: Seq<VTermScreenCell>) -> Seq<CellV> {
    v.map_values(|c: VTermScreenCell| c@)
}

pub open spec fn sb_view(v: Seq<Vec<VTermScreenCell>>) -> Seq<Seq<CellV>> {
    v.map_values(|row: Vec<VTermScreenCell>| cells_view(row@))
}

/// Mathematical image of the screen.
#[verifier::ext_equal]
pub struct ScreenV {
    pub state: TermStateV,
    pub cells: Seq<CellV>,
    pub merge: VTermDamageSize,
    pub damage: Seq<VTermRect>,
    pub damage_all: bool,
    pub scrollback: Seq<Seq<CellV>>,
    pub sb_max: int,
}

/// The screen: owns the state layer and the cell grid.
pub struct VTermScreen {
    state: VTermState,
    cells: Vec<VTermScreenCell>,
    damage_merge: VTermDamageSize,
    damage: Vec<VTermRect>,
    damage_all: bool,
    scrollback: Vec<Vec<VTermScreenCell>>,
    sb_max: usize,
}

impl View for VTermScreen {
    type V = ScreenV;

    closed spec fn view(&self) -> ScreenV {
        ScreenV {
            state: self.state@,
            cells: cells_view(self.cells@),
            merge: self.damage_merge,
            damage: self.damage@,
            damage_all: self.damage_all,
            scrollback: sb_view(self.scrollback@),
            sb_max: self.sb_max as int,
        }
    }
}

pub open spec fn screen_wf(s: ScreenV) -> bool {
    &&& st_wf(s.state)
    &&& s.cells.len() == s.state.rows * s.state.cols
    &&& s.scrollback.len() <= s.sb_max
}

fn blank_cell(pen: VTermPen) -> (c: VTermScreenCell)
    ensures
        c@ == erased_cell(pen),
{
    let c = VTermScreenCell { chars: [0; VTERM_MAX_CHARS_PER_CELL], num_chars: 0, width: 1, pen };
    proof {
        assert(c@.chars =~= erased_cell(pen).chars);
        assert(c@ =~= erased_cell(pen));
    }
    c
}

fn make_cells(rows: u16, cols: u16, pen: VTermPen) -> (v: Vec<VTermScreenCell>)
    ensures
        cells_view(v@).len() == rows as int * cols as int,
        forall|i: int|
            0 <= i < cells_view(v@).len() ==> cells_view(v@)[i] == erased_cell(pen),
{
    proof {
        assert(rows as int * cols as int <= 0xffff * 0xffff) by (nonlinear_arith)
            requires
                rows <= 0xffff,
                cols <= 0xffff,
        ;
    }
    let n: usize = rows as usize * cols as usize;
    let mut v: Vec<VTermScreenCell> = Vec::new();
    let mut i: usize = 0;
    while i < n
        invariant
            i <= n,
            v@.len() == i,
            forall|k: int| 0 <= k < i ==> (#[trigger] v@[k])@ == erased_cell(pen),
        decreases n - i,
    {
        v.push(blank_cell(pen));
        i = i + 1;
    }
    v
}

impl VTermScreen {
    pub open spec fn wf(&self) -> bool {
        screen_wf(self@)
    }

    pub fn new(rows: u16, cols: u16, sb_max: usize) -> (s: VTermScreen)
        requires
            rows >= 1,
            cols >= 1,
        ensures
            s.wf(),
            s@.state == crate::state::st_init(rows as int, cols as int),
            s@.cells.len() == rows as int * cols as int,
            forall|i: int| 0 <= i < s@.cells.len() ==> s@.cells[i] == erased_cell(default_pen_of()),
            s@.merge == VTermDamageSize::Cell,
            s@.damage.len() == 0,
            !s@.damage_all,
            s@.scrollback.len() == 0,
            s@.sb_max == sb_max,
    {
        let state = VTermState::new(rows, cols);
        let pen = VTermPen::default();
        let s = VTermScreen {
            state,
            cells: make_cells(rows, cols, pen),
            damage_merge: VTermDamageSize::Cell,
            damage: Vec::new(),
            damage_all: false,
            scrollback: Vec::new(),
            sb_max,
        };
        proof {
            assert(sb_view(s.scrollback@) =~= Seq::<Seq<CellV>>::empty());
        }
        s
    }

    /// The state layer, for queries.
    pub fn state(&self) -> (r: &VTermState)
        ensures
            r@ == self@.state,
    {
        &self.state
    }

    fn cell_index(&self, r: usize, c: usize) -> (i: usize)
        requires
            self.wf(),
            r < self@.state.rows,
            c < self@.state.cols,
        ensures
            i == r * self@.state.cols + c,
            i < self@.cells.len(),
    {
        proof {
            let rows = self@.state.rows;
            let cols = self@.state.cols;
            assert(r * cols + c < rows * cols && rows * cols <= 0xffff * 0xffff)
                by (nonlinear_arith)
                requires
                    0 <= (r as int) < rows,
                    0 <= (c as int) < cols,
                    1 <= cols,
                    rows <= 0xffff,
                    cols <= 0xffff,
            ;
        }
        let (_, cols) = self.state.get_size();
        r * cols as usize + c
    }

    /// Records one damaged rectangle under the current merge mode.
    fn record_damage(&mut self, rect: VTermRect)
        ensures
            final(self)@ == (ScreenV {
                damage_all: dmg_record(
                    old(self)@.damage_all,
                    old(self)@.damage,
                    rect,
                    old(self)@.merge,
                    old(self)@.state.cols,
                ).0,
                damage: dmg_record(
                    old(self)@.damage_all,
                    old(self)@.damage,
                    rect,
                    old(self)@.merge,
                    old(self)@.state.cols,
                ).1,
                ..old(self)@
            }),
    {
        match self.damage_merge {
            VTermDamageSize::Cell => {
                self.damage.push(rect);
            },
            VTermDamageSize::Row => {
                let (_, cols) = self.state.get_size();
                self.damage.push(
                    VTermRect {
                        start_row: rect.start_row,
                        end_row: rect.end_row,
                        start_col: 0,
                        end_col: cols as i32,
                    },
                );
            },
            VTermDamageSize::Screen => {
                self.damage_all = true;
            },
            VTermDamageSize::Scroll => {
                self.damage_all = true;
            },
        }
        proof {
            assert(self@ =~= (ScreenV {
                damage_all: dmg_record(
                    old(self)@.damage_all,
                    old(self)@.damage,
                    rect,
                    old(self)@.merge,
                    old(self)@.state.cols,
                ).0,
                damage: dmg_record(
                    old(self)@.damage_all,
                    old(self)@.damage,
                    rect,
                    old(self)@.merge,
                    old(self)@.state.cols,
                ).1,
                ..old(self)@
            }));
        }
    }

    /// Sets the damage merge granularity.
    pub fn set_damage_merge(&mut self, mode: VTermDamageSize)
        ensures
            final(self)@ == (ScreenV { merge: mode, ..old(self)@ }),
    {
        self.damage_merge = mode;
        proof {
            assert(self@ =~= (ScreenV { merge: mode, ..old(self)@ }));
        }
    }

    /// Flushes pending damage: returns the merged damage events and clears
    /// the record.
    pub fn flush_damage(&mut self) -> (r: Vec<VTermRect>)
        ensures
            r@ == dmg_flush(
                old(self)@.damage_all,
                old(self)@.damage,
                old(self)@.state.rows,
                old(self)@.state.cols,
            ),
            final(self)@ == (ScreenV {
                damage: Seq::empty(),
                damage_all: false,
                ..old(self)@
            }),
    {
        let mut r: Vec<VTermRect> = Vec::new();
        if self.damage_all {
            let (rows, cols) = self.state.get_size();
            r.push(
                VTermRect {
                    start_row: 0,
                    end_row: rows as i32,
                    start_col: 0,
                    end_col: cols as i32,
                },
            );
        }
        let mut i: usize = 0;
        let ghost head = r@;
        while i < self.damage.len()
            invariant
                i <= self.damage@.len(),
                r@ == head + self.damage@.take(i as int),
            decreases self.damage@.len() - i,
        {
            r.push(self.damage[i]);
            i = i + 1;
            proof {
                assert(head + self.damage@.take(i as int) =~= (head + self.damage@.take(
                    i - 1,
                )).push(self.damage@[i - 1]));
            }
        }
        self.damage = Vec::new();
        self.damage_all = false;
        proof {
            assert(self.damage@.take(self.damage@.len() as int) =~= self.damage@);
            assert(old(self).damage@.take(old(self).damage@.len() as int) =~= old(self).damage@);
            assert(r@ =~= dmg_flush(
                old(self)@.damage_all,
                old(self)@.damage,
                old(self)@.state.rows,
                old(self)@.state.cols,
            ));
            assert(self@ =~= (ScreenV { damage: Seq::empty(), damage_all: false, ..old(self)@ }));
        }
        r
    }

    /// The cell at `pos`, or `None` outside the grid; a pure read.
    pub fn get_cell(&self, pos: VTermPos) -> (r: Option<VTermScreenCell>)
        requires
            self.wf(),
        ensures
            (0 <= pos.row < self@.state.rows && 0 <= pos.col < self@.state.cols) ==> r is Some
                && r->0@ == self@.cells[pos.row * self@.state.cols + pos.col],
            !(0 <= pos.row < self@.state.rows && 0 <= pos.col < self@.state.cols) ==> r is None,
    {
        let (rows, cols) = self.state.get_size();
        if pos.row >= 0 && (pos.row as u32) < rows as u32 && pos.col >= 0 && (pos.col as u32)
            < cols as u32 {
            let i = self.cell_index(pos.row as usize, pos.col as usize);
            Some(self.cells[i])
        } else {
            None
        }
    }
}

/// The default pen, re-exported for contract reading.
pub open spec fn default_pen_of() -> VTermPen {
    crate::pen::default_pen()
}

/// The cell a fresh glyph write leaves behind.
pub open spec fn glyph_cell(ch: u32, width: u8, pen: VTermPen) -> CellV {
    CellV { chars: seq![ch], width, pen }
}

/// Whether a scroll of `rect` interacts with scrollback: a full-width
/// region anchored at the top, no horizontal component, the primary screen
/// active, and scrollback enabled.
pub open spec fn scroll_eligible(s: ScreenV, rect: VTermRect, rightward: int) -> bool {
    &&& rect.start_row == 0
    &&& rect.start_col == 0
    &&& rect.end_col == s.state.cols
    &&& rightward == 0
    &&& !s.state.alt_screen
    &&& s.sb_max > 0
}

/// The grid and scrollback after a scroll: rows leaving an eligible region
/// through the top are pushed onto scrollback, the region content shifts
/// with vacated cells erased, and an eligible backward scroll restores
/// vacated top rows from scrollback.
pub open spec fn scroll_outcome(
    s: ScreenV,
    rect: VTermRect,
    dn: int,
    rn: int,
    pen: VTermPen,
) -> (Seq<CellV>, Seq<Seq<CellV>>) {
    let elig = scroll_eligible(s, rect, rn);
    let height = rect.end_row - rect.start_row;
    let k = if elig && dn > 0 {
        if dn < height {
            dn
        } else {
            height
        }
    } else {
        0
    };
    let sb1 = sb_after_push(s.scrollback, s.cells, s.state.cols, 0, k, s.sb_max);
    let g1 = grid_scroll(s.cells, s.state.cols, rect, dn, rn, pen);
    if elig && dn < 0 {
        let m = if -dn < height {
            -dn
        } else {
            height
        };
        sb_restore(g1, sb1, m, s.state.cols, pen)
    } else {
        (g1, sb1)
    }
}

/// Appending one more evicted row extends the fold by one capped push.
proof fn lemma_sb_push_snoc(
    sb: Seq<Seq<CellV>>,
    g: Seq<CellV>,
    cols: int,
    j0: int,
    j: int,
    max: int,
)
    requires
        j0 <= j,
    ensures
        sb_after_push(sb, g, cols, j0, j + 1, max) == ({
            let s = sb_after_push(sb, g, cols, j0, j, max);
            let s1 = if s.len() >= max {
                s.drop_first()
            } else {
                s
            };
            s1.push(row_of(g, j, cols))
        }),
    decreases j - j0,
{
    reveal_with_fuel(sb_after_push, 3);
    if j0 < j {
        let s1 = if sb.len() >= max {
            sb.drop_first()
        } else {
            sb
        };
        lemma_sb_push_snoc(s1.push(row_of(g, j0, cols)), g, cols, j0 + 1, j, max);
    }
}

impl VTermScreen {
    /// Writes one glyph's cell.
    fn put_glyph_op(&mut self, ch: u32, width: u8, pos: VTermPos, pen: VTermPen)
        requires
            old(self).wf(),
            0 <= pos.row < old(self)@.state.rows,
            0 <= pos.col < old(self)@.state.cols,
        ensures
            final(self).wf(),
            final(self)@ == (ScreenV {
                cells: old(self)@.cells.update(
                    pos.row * old(self)@.state.cols + pos.col,
                    glyph_cell(ch, width, pen),
                ),
                damage_all: dmg_record(
                    old(self)@.damage_all,
                    old(self)@.damage,
                    cell_rect(pos),
                    old(self)@.merge,
                    old(self)@.state.cols,
                ).0,
                damage: dmg_record(
                    old(self)@.damage_all,
                    old(self)@.damage,
                    cell_rect(pos),
                    old(self)@.merge,
                    old(self)@.state.cols,
                ).1,
                ..old(self)@
            }),
    {
        let i = self.cell_index(pos.row as usize, pos.col as usize);
        let cell = VTermScreenCell {
            chars: [ch, 0, 0, 0, 0, 0],
            num_chars: 1,
            width,
            pen,
        };
        proof {
            assert(cell@.chars =~= glyph_cell(ch, width, pen).chars);
            assert(cell@ =~= glyph_cell(ch, width, pen));
        }
        self.cells.set(i, cell);
        let rect = VTermRect {
            start_row: pos.row,
            end_row: pos.row + 1,
            start_col: pos.col,
            end_col: pos.col + 1,
        };
        self.record_damage(rect);
        proof {
            assert(cells_view(self.cells@) =~= old(self)@.cells.update(
                pos.row * old(self)@.state.cols + pos.col,
                glyph_cell(ch, width, pen),
            ));
            assert(self@ =~= (ScreenV {
                cells: old(self)@.cells.update(
                    pos.row * old(self)@.state.cols + pos.col,
                    glyph_cell(ch, width, pen),
                ),
                damage_all: dmg_record(
                    old(self)@.damage_all,
                    old(self)@.damage,
                    cell_rect(pos),
                    old(self)@.merge,
                    old(self)@.state.cols,
                ).0,
                damage: dmg_record(
                    old(self)@.damage_all,
                    old(self)@.damage,
                    cell_rect(pos),
                    old(self)@.merge,
                    old(self)@.state.cols,
                ).1,
                ..old(self)@
            }));
        }
    }

    /// Attaches a combining codepoint to the cell at `pos` (dropped when
    /// the cell is already full).
    fn put_combining_op(&mut self, ch: u32, pos: VTermPos)
        requires
            old(self).wf(),
            0 <= pos.row < old(self)@.state.rows,
            0 <= pos.col < old(self)@.state.cols,
        ensures
            final(self).wf(),
            final(self)@.state == old(self)@.state,
            final(self)@.merge == old(self)@.merge,
            final(self)@.damage == old(self)@.damage,
            final(self)@.damage_all == old(self)@.damage_all,
            final(self)@.scrollback == old(self)@.scrollback,
            final(self)@.sb_max == old(self)@.sb_max,
            ({
                let i = pos.row * old(self)@.state.cols + pos.col;
                let c = old(self)@.cells[i];
                if c.chars.len() < 6 {
                    final(self)@.cells == old(self)@.cells.update(
                        i,
                        CellV { chars: c.chars.push(ch), ..c },
                    )
                } else {
                    final(self)@.cells == old(self)@.cells
                }
            }),
    {
        let i = self.cell_index(pos.row as usize, pos.col as usize);
        let cell = self.cells[i];
        if cell.num_chars < 6 {
            let a = cell.chars;
            let k = cell.num_chars as usize;
            let chars: [u32; VTERM_MAX_CHARS_PER_CELL] = if k == 0 {
                [ch, a[1], a[2], a[3], a[4], a[5]]
            } else if k == 1 {
                [a[0], ch, a[2], a[3], a[4], a[5]]
            } else if k == 2 {
                [a[0], a[1], ch, a[3], a[4], a[5]]
            } else if k == 3 {
                [a[0], a[1], a[2], ch, a[4], a[5]]
            } else if k == 4 {
                [a[0], a[1], a[2], a[3], ch, a[5]]
            } else {
                [a[0], a[1], a[2], a[3], a[4], ch]
            };
            let ncell = VTermScreenCell {
                chars,
                num_chars: cell.num_chars + 1,
                width: cell.width,
                pen: cell.pen,
            };
            proof {
                assert(ncell@.chars =~= cell@.chars.push(ch));
            }
            self.cells.set(i, ncell);
            proof {
                assert(cells_view(self.cells@) =~= old(self)@.cells.update(
                    pos.row * old(self)@.state.cols + pos.col,
                    CellV {
                        chars: old(self)@.cells[pos.row * old(self)@.state.cols + pos.col]
                            .chars.push(ch),
                        ..old(self)@.cells[pos.row * old(self)@.state.cols + pos.col]
                    },
                ));
            }
        } else {
            proof {
                assert(cells_view(self.cells@) =~= old(self)@.cells);
            }
        }
    }

    /// Erases `rect` to blank cells under `pen`.
    fn erase_rect_op(&mut self, rect: VTermRect, pen: VTermPen)
        requires
            old(self).wf(),
            rect_in_grid(rect, old(self)@.state.rows, old(self)@.state.cols),
        ensures
            final(self).wf(),
            final(self)@ == (ScreenV {
                cells: grid_erase(old(self)@.cells, old(self)@.state.cols, rect, pen),
                damage_all: dmg_record(
                    old(self)@.damage_all,
                    old(self)@.damage,
                    rect,
                    old(self)@.merge,
                    old(self)@.state.cols,
                ).0,
                damage: dmg_record(
                    old(self)@.damage_all,
                    old(self)@.damage,
                    rect,
                    old(self)@.merge,
                    old(self)@.state.cols,
                ).1,
                ..old(self)@
            }),
    {
        let ghost rows_g = old(self)@.state.rows;
        let ghost cols_g = old(self)@.state.cols;
        let (rows, cols) = self.state.get_size();
        let n = self.cells.len();
        let mut i: usize = 0;
        while i < n
            invariant
                i <= n,
                n == self.cells@.len(),
                n == old(self).cells@.len(),
                n == rows_g * cols_g,
                self@.state == old(self)@.state,
                self@.merge == old(self)@.merge,
                self@.damage == old(self)@.damage,
                self@.damage_all == old(self)@.damage_all,
                self@.scrollback == old(self)@.scrollback,
                self@.sb_max == old(self)@.sb_max,
                rows as int == rows_g,
                cols as int == cols_g,
                1 <= cols_g <= 0xffff,
                1 <= rows_g <= 0xffff,
                forall|j: int|
                    0 <= j < i ==> (#[trigger] self.cells@[j])@ == (if idx_in_rect(
                        j,
                        cols_g,
                        rect,
                    ) {
                        erased_cell(pen)
                    } else {
                        old(self)@.cells[j]
                    }),
                forall|j: int| i <= j < n ==> self.cells@[j] == old(self).cells@[j],
            decreases n - i,
        {
            proof {
                vstd::arithmetic::div_mod::lemma_fundamental_div_mod(i as int, cols_g);
                vstd::arithmetic::div_mod::lemma_mod_division_less_than_divisor(i as int, cols_g);
                vstd::arithmetic::div_mod::lemma_div_pos_is_pos(i as int, cols_g);
                assert((i as int) / cols_g < rows_g) by (nonlinear_arith)
                    requires
                        cols_g * ((i as int) / cols_g) + (i as int) % cols_g == i as int,
                        (i as int) < rows_g * cols_g,
                        0 <= (i as int) % cols_g,
                        1 <= cols_g,
                ;
            }
            let r = i / cols as usize;
            let c = i % cols as usize;
            let inside = crate::geom::vterm_rect_contains(
                rect,
                VTermPos { row: r as i32, col: c as i32 },
            );
            let ghost prev = self.cells@;
            if inside {
                self.cells.set(i, blank_cell(pen));
            }
            proof {
                assert(inside == idx_in_rect(i as int, cols_g, rect));
                assert((self.cells@[i as int])@ == (if idx_in_rect(i as int, cols_g, rect) {
                    erased_cell(pen)
                } else {
                    old(self)@.cells[i as int]
                }));
            }
            i = i + 1;
        }
        proof {
            assert forall|j: int| 0 <= j < n implies cells_view(self.cells@)[j] == grid_erase(
                old(self)@.cells,
                old(self)@.state.cols,
                rect,
                pen,
            )[j] by {
                assert((self.cells@[j])@ == (if idx_in_rect(j, cols_g, rect) {
                    erased_cell(pen)
                } else {
                    old(self)@.cells[j]
                }));
            }
            assert(cells_view(self.cells@) =~= grid_erase(
                old(self)@.cells,
                old(self)@.state.cols,
                rect,
                pen,
            ));
        }
        self.record_damage(rect);
        proof {
            assert(self@ =~= (ScreenV {
                cells: grid_erase(old(self)@.cells, old(self)@.state.cols, rect, pen),
                damage_all: dmg_record(
                    old(self)@.damage_all,
                    old(self)@.damage,
                    rect,
                    old(self)@.merge,
                    old(self)@.state.cols,
                ).0,
                damage: dmg_record(
                    old(self)@.damage_all,
                    old(self)@.damage,
                    rect,
                    old(self)@.merge,
                    old(self)@.state.cols,
                ).1,
                ..old(self)@
            }));
        }
    }
}

fn copy_cells(src: &Vec<VTermScreenCell>) -> (r: Vec<VTermScreenCell>)
    ensures
        r@ == src@,
{
    let mut r: Vec<VTermScreenCell> = Vec::new();
    let mut i: usize = 0;
    while i < src.len()
        invariant
            i <= src@.len(),
            r@ == src@.take(i as int),
        decreases src@.len() - i,
    {
        r.push(src[i]);
        i = i + 1;
        proof {
            assert(src@.take(i as int) =~= src@.take(i - 1).push(src@[i - 1]));
        }
    }
    proof {
        assert(src@.take(src@.len() as int) =~= src@);
    }
    r
}

impl VTermScreen {
    /// Shifts the content of `rect` by `(downward, rightward)`, erasing
    /// vacated cells; the grid becomes exactly [`grid_scroll`].
    #[verifier::rlimit(100)]
    fn scroll_core(&mut self, rect: VTermRect, downward: i32, rightward: i32, pen: VTermPen)
        requires
            old(self).wf(),
            rect_in_grid(rect, old(self)@.state.rows, old(self)@.state.cols),
            -0x8000 <= downward <= 0x8000,
            -0x8000 <= rightward <= 0x8000,
        ensures
            final(self).wf(),
            final(self)@ == (ScreenV {
                cells: grid_scroll(
                    old(self)@.cells,
                    old(self)@.state.cols,
                    rect,
                    downward as int,
                    rightward as int,
                    pen,
                ),
                ..old(self)@
            }),
    {
        let ghost rows_g = old(self)@.state.rows;
        let ghost cols_g = old(self)@.state.cols;
        let (rows, cols) = self.state.get_size();
        let snap = copy_cells(&self.cells);
        let n = self.cells.len();
        let mut i: usize = 0;
        while i < n
            invariant
                i <= n,
                n == self.cells@.len(),
                n == old(self).cells@.len(),
                snap@ == old(self).cells@,
                n == rows_g * cols_g,
                self@.state == old(self)@.state,
                self@.merge == old(self)@.merge,
                self@.damage == old(self)@.damage,
                self@.damage_all == old(self)@.damage_all,
                self@.scrollback == old(self)@.scrollback,
                self@.sb_max == old(self)@.sb_max,
                rows as int == rows_g,
                cols as int == cols_g,
                1 <= cols_g <= 0xffff,
                1 <= rows_g <= 0xffff,
                rect_in_grid(rect, rows_g, cols_g),
                -0x8000 <= downward <= 0x8000,
                -0x8000 <= rightward <= 0x8000,
                forall|j: int|
                    0 <= j < i ==> (#[trigger] self.cells@[j])@ == grid_scroll(
                        old(self)@.cells,
                        cols_g,
                        rect,
                        downward as int,
                        rightward as int,
                        pen,
                    )[j],
                forall|j: int| i <= j < n ==> self.cells@[j] == old(self).cells@[j],
            decreases n - i,
        {
            proof {
                vstd::arithmetic::div_mod::lemma_fundamental_div_mod(i as int, cols_g);
                vstd::arithmetic::div_mod::lemma_mod_division_less_than_divisor(i as int, cols_g);
                vstd::arithmetic::div_mod::lemma_div_pos_is_pos(i as int, cols_g);
                assert((i as int) / cols_g < rows_g) by (nonlinear_arith)
                    requires
                        cols_g * ((i as int) / cols_g) + (i as int) % cols_g == i as int,
                        (i as int) < rows_g * cols_g,
                        0 <= (i as int) % cols_g,
                        1 <= cols_g,
                ;
            }
            let r = i / cols as usize;
            let c = i % cols as usize;
            let inside = crate::geom::vterm_rect_contains(
                rect,
                VTermPos { row: r as i32, col: c as i32 },
            );
            if inside {
                let sr: i64 = r as i64 + downward as i64;
                let sc: i64 = c as i64 + rightward as i64;
                let src_inside = sr >= rect.start_row as i64 && sr < rect.end_row as i64 && sc
                    >= rect.start_col as i64 && sc < rect.end_col as i64;
                if src_inside {
                    proof {
                        assert(0 <= sr < rows_g && 0 <= sc < cols_g);
                        assert((sr as int) * cols_g + (sc as int) < rows_g * cols_g)
                            by (nonlinear_arith)
                            requires
                                0 <= (sr as int) < rows_g,
                                0 <= (sc as int) < cols_g,
                                1 <= cols_g,
                        ;
                        lemma_rowcol(sr as int, sc as int, cols_g);
                    }
                    let si: usize = sr as usize * cols as usize + sc as usize;
                    let cell = snap[si];
                    self.cells.set(i, cell);
                    proof {
                        assert((self.cells@[i as int])@ == grid_scroll(
                            old(self)@.cells,
                            cols_g,
                            rect,
                            downward as int,
                            rightward as int,
                            pen,
                        )[i as int]);
                    }
                } else {
                    self.cells.set(i, blank_cell(pen));
                    proof {
                        assert((self.cells@[i as int])@ == grid_scroll(
                            old(self)@.cells,
                            cols_g,
                            rect,
                            downward as int,
                            rightward as int,
                            pen,
                        )[i as int]);
                    }
                }
            } else {
                proof {
                    assert((self.cells@[i as int])@ == grid_scroll(
                        old(self)@.cells,
                        cols_g,
                        rect,
                        downward as int,
                        rightward as int,
                        pen,
                    )[i as int]);
                }
            }
            i = i + 1;
        }
        proof {
            assert forall|j: int| 0 <= j < n implies cells_view(self.cells@)[j] == grid_scroll(
                old(self)@.cells,
                cols_g,
                rect,
                downward as int,
                rightward as int,
                pen,
            )[j] by {
                assert((self.cells@[j])@ == grid_scroll(
                    old(self)@.cells,
                    cols_g,
                    rect,
                    downward as int,
                    rightward as int,
                    pen,
                )[j]);
            }
            assert(cells_view(self.cells@) =~= grid_scroll(
                old(self)@.cells,
                cols_g,
                rect,
                downward as int,
                rightward as int,
                pen,
            ));
            assert(self@ =~= (ScreenV {
                cells: grid_scroll(
                    old(self)@.cells,
                    old(self)@.state.cols,
                    rect,
                    downward as int,
                    rightward as int,
                    pen,
                ),
                ..old(self)@
            }));
        }
    }

    /// Reads one row of the grid.
    fn read_row(&self, r: usize) -> (row: Vec<VTermScreenCell>)
        requires
            self.wf(),
            (r as int) < self@.state.rows,
        ensures
            cells_view(row@) == row_of(self@.cells, r as int, self@.state.cols),
    {
        let ghost cols_g = self@.state.cols;
        let (_, cols) = self.state.get_size();
        let mut row: Vec<VTermScreenCell> = Vec::new();
        let mut c: usize = 0;
        while c < cols as usize
            invariant
                c <= cols_g,
                cols as int == cols_g,
                self.wf(),
                (r as int) < self@.state.rows,
                cols_g == self@.state.cols,
                row@.len() == c,
                forall|k: int|
                    0 <= k < c ==> (#[trigger] row@[k])@ == self@.cells[r as int * cols_g + k],
            decreases cols_g - c,
        {
            let i = self.cell_index(r, c);
            let cell = self.cells[i];
            row.push(cell);
            c = c + 1;
        }
        proof {
            assert(cells_view(row@) =~= row_of(self@.cells, r as int, cols_g));
        }
        row
    }

    /// Overwrites one row of the grid from a stored row, padding with
    /// erased cells.
    fn write_row_op(&mut self, r: usize, row: &Vec<VTermScreenCell>, pen: VTermPen)
        requires
            old(self).wf(),
            (r as int) < old(self)@.state.rows,
        ensures
            final(self).wf(),
            final(self)@ == (ScreenV {
                cells: write_row(
                    old(self)@.cells,
                    r as int,
                    cells_view(row@),
                    old(self)@.state.cols,
                    pen,
                ),
                ..old(self)@
            }),
    {
        let ghost rows_g = old(self)@.state.rows;
        let ghost cols_g = old(self)@.state.cols;
        let (_, cols) = self.state.get_size();
        let mut c: usize = 0;
        proof {
            assert((r as int) * cols_g + cols_g <= rows_g * cols_g) by (nonlinear_arith)
                requires
                    0 <= (r as int) < rows_g,
                    1 <= cols_g,
            ;
            assert((r as int) * cols_g >= 0) by (nonlinear_arith)
                requires
                    0 <= (r as int),
                    1 <= cols_g,
            ;
        }
        while c < cols as usize
            invariant
                c <= cols_g,
                cols as int == cols_g,
                self.wf(),
                self.cells@.len() == old(self).cells@.len(),
                old(self).cells@.len() == rows_g * cols_g,
                0 <= (r as int) * cols_g,
                (r as int) * cols_g + cols_g <= rows_g * cols_g,
                (r as int) < rows_g,
                self@.state == old(self)@.state,
                self@.merge == old(self)@.merge,
                self@.damage == old(self)@.damage,
                self@.damage_all == old(self)@.damage_all,
                self@.scrollback == old(self)@.scrollback,
                self@.sb_max == old(self)@.sb_max,
                rows_g == self@.state.rows,
                cols_g == self@.state.cols,
                1 <= cols_g <= 0xffff,
                1 <= rows_g <= 0xffff,
                forall|k: int|
                    0 <= k < c ==> (#[trigger] self.cells@[(r as int) * cols_g + k])@ == (if k
                        < cells_view(row@).len() {
                        cells_view(row@)[k]
                    } else {
                        erased_cell(pen)
                    }),
                forall|j: int|
                    0 <= j < self.cells@.len() && !((r as int) * cols_g <= j < (r as int) * cols_g
                        + c) ==> self.cells@[j] == old(self).cells@[j],
            decreases cols_g - c,
        {
            let i = self.cell_index(r, c);
            let cell = if c < row.len() {
                row[c]
            } else {
                blank_cell(pen)
            };
            self.cells.set(i, cell);
            c = c + 1;
        }
        proof {
            assert forall|j: int|
                0 <= j < self.cells@.len() implies cells_view(self.cells@)[j] == write_row(
                old(self)@.cells,
                r as int,
                cells_view(row@),
                cols_g,
                pen,
            )[j] by {
                if (r as int) * cols_g <= j < ((r as int) + 1) * cols_g {
                    assert(((r as int) + 1) * cols_g == (r as int) * cols_g + cols_g)
                        by (nonlinear_arith);
                    let k = j - (r as int) * cols_g;
                    assert((self.cells@[(r as int) * cols_g + k])@ == (if k < cells_view(
                        row@,
                    ).len() {
                        cells_view(row@)[k]
                    } else {
                        erased_cell(pen)
                    }));
                } else {
                    assert(((r as int) + 1) * cols_g == (r as int) * cols_g + cols_g)
                        by (nonlinear_arith);
                    assert(self.cells@[j] == old(self).cells@[j]);
                }
            }
            assert(cells_view(self.cells@) =~= write_row(
                old(self)@.cells,
                r as int,
                cells_view(row@),
                cols_g,
                pen,
            ));
            assert(self@ =~= (ScreenV {
                cells: write_row(
                    old(self)@.cells,
                    r as int,
                    cells_view(row@),
                    old(self)@.state.cols,
                    pen,
                ),
                ..old(self)@
            }));
        }
    }
}

impl VTermScreen {
    /// Scrolls `rect`, exchanging rows with scrollback when the region is
    /// eligible; the outcome is exactly [`scroll_outcome`].
    #[verifier::rlimit(100)]
    fn scroll_rect_op(&mut self, rect: VTermRect, downward: i32, rightward: i32, pen: VTermPen)
        requires
            old(self).wf(),
            rect_in_grid(rect, old(self)@.state.rows, old(self)@.state.cols),
            -0x8000 <= downward <= 0x8000,
            -0x8000 <= rightward <= 0x8000,
        ensures
            final(self).wf(),
            final(self)@ == (ScreenV {
                cells: scroll_outcome(old(self)@, rect, downward as int, rightward as int, pen).0,
                scrollback: scroll_outcome(
                    old(self)@,
                    rect,
                    downward as int,
                    rightward as int,
                    pen,
                ).1,
                damage_all: dmg_record(
                    old(self)@.damage_all,
                    old(self)@.damage,
                    rect,
                    old(self)@.merge,
                    old(self)@.state.cols,
                ).0,
                damage: dmg_record(
                    old(self)@.damage_all,
                    old(self)@.damage,
                    rect,
                    old(self)@.merge,
                    old(self)@.state.cols,
                ).1,
                ..old(self)@
            }),
    {
        let ghost s0 = old(self)@;
        let (rows, cols) = self.state.get_size();
        let elig = rect.start_row == 0 && rect.start_col == 0 && rect.end_col == cols as i32
            && rightward == 0 && !self.state.is_alt_screen() && self.sb_max > 0;
        proof {
            assert(elig == scroll_eligible(s0, rect, rightward as int));
        }
        let height: i32 = rect.end_row - rect.start_row;
        if elig && downward > 0 {
            let k: i32 = if downward < height {
                downward
            } else {
                height
            };
            let mut j: usize = 0;
            while j < k as usize
                invariant
                    s0 == old(self)@,
                    j <= k as int,
                    0 <= k as int <= old(self)@.state.rows,
                    k as int <= rect.end_row,
                    rect.start_row == 0,
                    self.wf(),
                    self@.sb_max > 0,
                    self@ == (ScreenV {
                        scrollback: sb_after_push(
                            s0.scrollback,
                            s0.cells,
                            s0.state.cols,
                            0,
                            j as int,
                            s0.sb_max,
                        ),
                        ..s0
                    }),
                decreases k as int - j,
            {
                let ghost sb_pre = self@.scrollback;
                proof {
                    assert(j < k as int);
                    assert(k as int <= s0.state.rows);
                    assert(self@.state == s0.state);
                    assert((j as int) < self@.state.rows);
                }
                let row = self.read_row(j);
                if self.scrollback.len() >= self.sb_max {
                    self.scrollback.remove(0);
                    proof {
                        assert(sb_view(self.scrollback@) =~= sb_pre.drop_first());
                    }
                }
                self.scrollback.push(row);
                j = j + 1;
                proof {
                    lemma_sb_push_snoc(s0.scrollback, s0.cells, s0.state.cols, 0, j - 1, s0.sb_max);
                    assert(sb_view(self.scrollback@) =~= sb_after_push(
                        s0.scrollback,
                        s0.cells,
                        s0.state.cols,
                        0,
                        j as int,
                        s0.sb_max,
                    ));
                    assert(self@ =~= (ScreenV {
                        scrollback: sb_after_push(
                            s0.scrollback,
                            s0.cells,
                            s0.state.cols,
                            0,
                            j as int,
                            s0.sb_max,
                        ),
                        ..s0
                    }));
                }
            }
        }
        let ghost sb1 = self@.scrollback;
        proof {
            assert(sb1 == sb_after_push(
                s0.scrollback,
                s0.cells,
                s0.state.cols,
                0,
                if scroll_eligible(s0, rect, rightward as int) && downward > 0 {
                    if downward < height as int {
                        downward as int
                    } else {
                        height as int
                    }
                } else {
                    0
                },
                s0.sb_max,
            ));
        }
        self.scroll_core(rect, downward, rightward, pen);
        let ghost g1 = self@.cells;
        if elig && downward < 0 {
            let m: i32 = if -downward < height {
                -downward
            } else {
                height
            };
            let mut j: usize = m as usize;
            while j > 0 && self.scrollback.len() > 0
                invariant
                    s0 == old(self)@,
                    j <= m as int,
                    0 <= m as int <= old(self)@.state.rows,
                    self.wf(),
                    sb_restore(self@.cells, self@.scrollback, j as int, s0.state.cols, pen)
                        == sb_restore(g1, sb1, m as int, s0.state.cols, pen),
                    self@.state == s0.state,
                    self@.merge == s0.merge,
                    self@.damage == s0.damage,
                    self@.damage_all == s0.damage_all,
                    self@.sb_max == s0.sb_max,
                decreases j,
            {
                let ghost g_pre = self@.cells;
                let ghost sb_pre = self@.scrollback;
                j = j - 1;
                proof {
                    assert((j as int) < m as int);
                    assert(self@.state == s0.state);
                    assert((j as int) < self@.state.rows);
                }
                let row_opt = self.scrollback.pop();
                let row = match row_opt {
                    Some(r) => r,
                    None => Vec::new(),
                };
                proof {
                    assert(sb_view(self.scrollback@) =~= sb_pre.drop_last());
                    assert(cells_view(row@) == sb_pre.last());
                }
                self.write_row_op(j, &row, pen);
                proof {
                    assert(self@.cells == write_row(
                        g_pre,
                        j as int,
                        sb_pre.last(),
                        s0.state.cols,
                        pen,
                    ));
                    assert(sb_restore(g_pre, sb_pre, j + 1, s0.state.cols, pen) == sb_restore(
                        self@.cells,
                        self@.scrollback,
                        j as int,
                        s0.state.cols,
                        pen,
                    ));
                }
            }
            proof {
                assert(sb_restore(self@.cells, self@.scrollback, j as int, s0.state.cols, pen)
                    == (self@.cells, self@.scrollback));
            }
        }
        self.record_damage(rect);
        proof {
            assert(self@ =~= (ScreenV {
                cells: scroll_outcome(s0, rect, downward as int, rightward as int, pen).0,
                scrollback: scroll_outcome(s0, rect, downward as int, rightward as int, pen).1,
                damage_all: dmg_record(s0.damage_all, s0.damage, rect, s0.merge, s0.state.cols).0,
                damage: dmg_record(s0.damage_all, s0.damage, rect, s0.merge, s0.state.cols).1,
                ..s0
            }));
        }
    }

    /// Applies one semantic action to the grid: the screen becomes exactly
    /// [`screen_apply`] of the action.  Cursor moves, property changes,
    /// bells and reports do not touch cells.
    pub fn apply_action(&mut self, a: &StateAction)
        requires
            old(self).wf(),
            act_wf(*a, old(self)@.state.rows, old(self)@.state.cols),
        ensures
            final(self).wf(),
            final(self)@ == screen_apply(old(self)@, *a),
    {
        match a {
            StateAction::PutGlyph { ch, width, pos, pen } => {
                self.put_glyph_op(*ch, *width, *pos, *pen);
                proof {
                    assert(self@ =~= screen_apply(old(self)@, *a));
                }
            },
            StateAction::PutCombining { ch, pos } => {
                self.put_combining_op(*ch, *pos);
                proof {
                    assert(self@ =~= screen_apply(old(self)@, *a));
                }
            },
            StateAction::Erase { rect, selective, pen } => {
                self.erase_rect_op(*rect, *pen);
                proof {
                    assert(self@ =~= screen_apply(old(self)@, *a));
                }
            },
            StateAction::ScrollRect { rect, downward, rightward } => {
                let pen = VTermPen::default();
                self.scroll_rect_op(*rect, *downward, *rightward, pen);
                proof {
                    assert(self@ =~= screen_apply(old(self)@, *a));
                }
            },
            StateAction::Resize { rows, cols } => {
                let pen = VTermPen::default();
                self.cells = make_cells(*rows, *cols, pen);
                let full = VTermRect {
                    start_row: 0,
                    end_row: *rows as i32,
                    start_col: 0,
                    end_col: *cols as i32,
                };
                self.record_damage(full);
                proof {
                    assert(cells_view(self.cells@) =~= blank_grid(*rows as int, *cols as int));
                    assert(self@ =~= screen_apply(old(self)@, *a));
                }
            },
            _ => {
                proof {
                    assert(self@ =~= screen_apply(old(self)@, *a));
                }
            },
        }
    }

    /// The screen after the state has interpreted `ev` but before any
    /// action is applied: the state has stepped, and on a size change the
    /// grid has been rebuilt blank so that it matches the new dimensions.
    pub open spec fn mid_screen(s: ScreenV, ev: crate::parser::EventV) -> ScreenV {
        let st1 = st_step(s.state, ev);
        if s.cells.len() != st1.rows * st1.cols {
            ScreenV { state: st1, cells: blank_grid(st1.rows, st1.cols), ..s }
        } else {
            ScreenV { state: st1, ..s }
        }
    }

    /// Feeds one parser event through the state layer and applies every
    /// resulting action to the grid: the screen becomes exactly the fold of
    /// [`screen_apply`] over the returned actions, so the grid, damage and
    /// scrollback outcome is pinned by this contract together with the
    /// action list.  A cursor-position query returns exactly one report
    /// action carrying [`crate::state::dsr_bytes`]; no other event
    /// produces a report.
    pub fn process_event(&mut self, ev: &VTermEvent) -> (acts: Vec<StateAction>)
        requires
            old(self).wf(),
        ensures
            final(self).wf(),
            final(self)@.state == st_step(old(self)@.state, ev@),
            acts_wf(acts@, final(self)@.state.rows, final(self)@.state.cols),
            final(self)@ == screen_run_from(Self::mid_screen(old(self)@, ev@), acts@, 0),
            crate::state::is_dsr_query(ev@) ==> acts@.len() == 1 && acts@[0] is Report
                && acts@[0]->Report_bytes@ == dsr_bytes(
                old(self)@.state.cur_row,
                old(self)@.state.cur_col,
            ),
            !crate::state::is_dsr_query(ev@) ==> crate::state::no_reports(acts@),
            ev@ is Resize ==> acts@.len() == 1 && acts@[0] is Resize
                && acts@[0]->Resize_rows as int == final(self)@.state.rows
                && acts@[0]->Resize_cols as int == final(self)@.state.cols,
    {
        let acts = self.state.handle_event(ev);
        let ghost st1 = self@.state;
        if self.cells.len() != grid_len_now(&self.state) {
            // The event resized the grid: rebuild it before anything else.
            let (rows, cols) = self.state.get_size();
            self.cells = make_cells(rows, cols, VTermPen::default());
            proof {
                assert(cells_view(self.cells@) =~= blank_grid(st1.rows, st1.cols));
            }
        }
        let ghost mid = self@;
        proof {
            assert(mid =~= Self::mid_screen(old(self)@, ev@));
        }
        let mut i: usize = 0;
        while i < acts.len()
            invariant
                i <= acts@.len(),
                self.wf(),
                self@.state == st1,
                acts_wf(acts@, st1.rows, st1.cols),
                screen_run_from(mid, acts@, 0) == screen_run_from(self@, acts@, i as int),
            decreases acts@.len() - i,
        {
            proof {
                assert(act_wf(acts@[i as int], st1.rows, st1.cols));
            }
            self.apply_action(&acts[i]);
            i = i + 1;
        }
        acts
    }

    /// Resets state and grid; the state becomes exactly
    /// [`crate::state::st_reset`] and every cell is erased.
    pub fn reset(&mut self, hard: bool)
        requires
            old(self).wf(),
        ensures
            final(self).wf(),
            final(self)@.state == crate::state::st_reset(old(self)@.state, hard),
            forall|i: int|
                0 <= i < final(self)@.cells.len() ==> final(self)@.cells[i] == erased_cell(
                    default_pen_of(),
                ),
    {
        self.state.reset(hard);
        let (rows, cols) = self.state.get_size();
        self.cells = make_cells(rows, cols, VTermPen::default());
        let full = VTermRect {
            start_row: 0,
            end_row: rows as i32,
            start_col: 0,
            end_col: cols as i32,
        };
        self.record_damage(full);
    }
}

fn grid_len_now(state: &VTermState) -> (n: usize)
    requires
        st_wf(state@),
    ensures
        n as int == state@.rows * state@.cols,
{
    proof {
        assert(state@.rows * state@.cols <= 0xffff * 0xffff) by (nonlinear_arith)
            requires
                state@.rows <= 0xffff,
                state@.cols <= 0xffff,
                1 <= state@.rows,
                1 <= state@.cols,
        ;
        assert(state@.rows * state@.cols >= 0) by (nonlinear_arith)
            requires
                1 <= state@.rows,
                1 <= state@.cols,
        ;
    }
    let (rows, cols) = state.get_size();
    rows as usize * cols as usize
}

/// A single-cell rectangle.
pub open spec fn cell_rect(pos: VTermPos) -> VTermRect
    recommends
        pos.row < i32::MAX,
        pos.col < i32::MAX,
{
    VTermRect {
        start_row: pos.row,
        end_row: (pos.row + 1) as i32,
        start_col: pos.col,
        end_col: (pos.col + 1) as i32,
    }
}

/// A grid of erased cells under the default pen.
pub open spec fn blank_grid(rows: int, cols: int) -> Seq<CellV> {
    Seq::new((rows * cols) as nat, |i: int| erased_cell(default_pen_of()))
}

/// The whole-screen rectangle.
pub open spec fn full_rect(rows: int, cols: int) -> VTermRect {
    VTermRect { start_row: 0, end_row: rows as i32, start_col: 0, end_col: cols as i32 }
}

/// The effect of one semantic action on the screen: glyph writes, erases
/// and scrolls change the cells (and record damage); a resize rebuilds a
/// blank grid; cursor moves, property changes, bells and reports change
/// nothing here.
pub open spec fn screen_apply(s: ScreenV, a: StateAction) -> ScreenV {
    match a {
        StateAction::PutGlyph { ch, width, pos, pen } => ScreenV {
            cells: s.cells.update(pos.row * s.state.cols + pos.col, glyph_cell(ch, width, pen)),
            damage_all: dmg_record(s.damage_all, s.damage, cell_rect(pos), s.merge, s.state.cols).0,
            damage: dmg_record(s.damage_all, s.damage, cell_rect(pos), s.merge, s.state.cols).1,
            ..s
        },
        StateAction::PutCombining { ch, pos } => {
            let i = pos.row * s.state.cols + pos.col;
            let c = s.cells[i];
            if c.chars.len() < 6 {
                ScreenV { cells: s.cells.update(i, CellV { chars: c.chars.push(ch), ..c }), ..s }
            } else {
                s
            }
        },
        StateAction::Erase { rect, selective, pen } => ScreenV {
            cells: grid_erase(s.cells, s.state.cols, rect, pen),
            damage_all: dmg_record(s.damage_all, s.damage, rect, s.merge, s.state.cols).0,
            damage: dmg_record(s.damage_all, s.damage, rect, s.merge, s.state.cols).1,
            ..s
        },
        StateAction::ScrollRect { rect, downward, rightward } => ScreenV {
            cells: scroll_outcome(s, rect, downward as int, rightward as int, default_pen_of()).0,
            scrollback: scroll_outcome(
                s,
                rect,
                downward as int,
                rightward as int,
                default_pen_of(),
            ).1,
            damage_all: dmg_record(s.damage_all, s.damage, rect, s.merge, s.state.cols).0,
            damage: dmg_record(s.damage_all, s.damage, rect, s.merge, s.state.cols).1,
            ..s
        },
        StateAction::Resize { rows, cols } => ScreenV {
            cells: blank_grid(rows as int, cols as int),
            damage_all: dmg_record(
                s.damage_all,
                s.damage,
                full_rect(rows as int, cols as int),
                s.merge,
                s.state.cols,
            ).0,
            damage: dmg_record(
                s.damage_all,
                s.damage,
                full_rect(rows as int, cols as int),
                s.merge,
                s.state.cols,
            ).1,
            ..s
        },
        _ => s,
    }
}

/// [`screen_apply`] folded over the actions from index `i` on.
pub open spec fn screen_run_from(s: ScreenV, acts: Seq<StateAction>, i: int) -> ScreenV
    decreases acts.len() - i,
{
    if i < 0 || i >= acts.len() {
        s
    } else {
        screen_run_from(screen_apply(s, acts[i]), acts, i + 1)
    }
}

/// The codepoints of row `r`, columns `c0..c1`, in order.
pub open spec fn row_chars(g: Seq<CellV>, cols: int, r: int, c0: int, c1: int) -> Seq<u32>
    decreases c1 - c0,
{
    if c0 < 0 || c0 >= c1 {
        Seq::empty()
    } else {
        g[r * cols + c0].chars + row_chars(g, cols, r, c0 + 1, c1)
    }
}

/// The codepoints of a rectangle in row-major scan order, rows `r` on.
pub open spec fn rect_chars(g: Seq<CellV>, cols: int, rect: VTermRect, r: int) -> Seq<u32>
    decreases rect.end_row - r,
{
    if r < rect.start_row || r >= rect.end_row {
        Seq::empty()
    } else {
        row_chars(g, cols, r, rect.start_col as int, rect.end_col as int) + rect_chars(
            g,
            cols,
            rect,
            r + 1,
        )
    }
}

/// The UTF-8 encoding of a sequence of codepoints.
pub open spec fn text_of(chs: Seq<u32>) -> Seq<u8>
    decreases chs.len(),
{
    if chs.len() == 0 {
        Seq::empty()
    } else {
        crate::output::utf8_bytes(chs[0]) + text_of(chs.drop_first())
    }
}

/// Whether two pens agree on every attribute the mask selects.
pub open spec fn pens_match(mask: VTermAttrMask, a: VTermPen, b: VTermPen) -> bool {
    &&& mask.bold ==> a.bold == b.bold
    &&& mask.underline ==> a.underline == b.underline
    &&& mask.italic ==> a.italic == b.italic
    &&& mask.blink ==> a.blink == b.blink
    &&& mask.reverse ==> a.reverse == b.reverse
    &&& mask.strike ==> a.strike == b.strike
    &&& mask.font ==> a.font == b.font
    &&& mask.foreground ==> a.fg == b.fg
    &&& mask.background ==> a.bg == b.bg
}

impl VTermScreen {
    /// Whether everything from `pos` to the end of its row is empty cells;
    /// `None` outside the grid.  A pure read.
    pub fn is_eol(&self, pos: VTermPos) -> (r: Option<bool>)
        requires
            self.wf(),
        ensures
            (0 <= pos.row < self@.state.rows && 0 <= pos.col < self@.state.cols) ==> r
                == Some(
                forall|c: int|
                    pos.col <= c < self@.state.cols ==> (#[trigger] self@.cells[pos.row
                        * self@.state.cols + c]).chars.len() == 0,
            ),
            !(0 <= pos.row < self@.state.rows && 0 <= pos.col < self@.state.cols) ==> r is None,
    {
        let (rows, cols) = self.state.get_size();
        if !(pos.row >= 0 && (pos.row as u32) < rows as u32 && pos.col >= 0 && (pos.col as u32)
            < cols as u32) {
            return None;
        }
        let row = pos.row as usize;
        let mut c: usize = pos.col as usize;
        while c < cols as usize
            invariant
                pos.col <= c as int <= self@.state.cols,
                0 <= pos.row < self@.state.rows,
                0 <= pos.col < self@.state.cols,
                row as int == pos.row,
                cols as int == self@.state.cols,
                self.wf(),
                forall|k: int|
                    pos.col <= k < c ==> (#[trigger] self@.cells[pos.row * self@.state.cols
                        + k]).chars.len() == 0,
            decreases cols as int - c,
        {
            let i = self.cell_index(row, c);
            if self.cells[i].num_chars > 0 {
                proof {
                    assert(self@.cells[pos.row * self@.state.cols + c].chars.len() > 0);
                }
                return Some(false);
            }
            c = c + 1;
        }
        Some(true)
    }

    /// The codepoints stored in `rect`, row-major; exactly [`rect_chars`].
    /// A pure read.
    pub fn get_chars(&self, rect: VTermRect) -> (r: Vec<u32>)
        requires
            self.wf(),
            rect_in_grid(rect, self@.state.rows, self@.state.cols),
        ensures
            r@ == rect_chars(self@.cells, self@.state.cols, rect, rect.start_row as int),
    {
        let ghost g = self@.cells;
        let ghost colsg = self@.state.cols;
        let mut out: Vec<u32> = Vec::new();
        proof {
            assert(Seq::<u32>::empty() + rect_chars(g, colsg, rect, rect.start_row as int)
                =~= rect_chars(g, colsg, rect, rect.start_row as int));
        }
        let mut row: i32 = rect.start_row;
        while row < rect.end_row
            invariant
                rect.start_row <= row <= rect.end_row,
                self.wf(),
                g == self@.cells,
                colsg == self@.state.cols,
                rect_in_grid(rect, self@.state.rows, self@.state.cols),
                rect_chars(g, colsg, rect, rect.start_row as int) == out@ + rect_chars(
                    g,
                    colsg,
                    rect,
                    row as int,
                ),
            decreases rect.end_row - row,
        {
            let mut c: i32 = rect.start_col;
            while c < rect.end_col
                invariant
                    rect.start_col <= c <= rect.end_col,
                    rect.start_row <= row < rect.end_row,
                    self.wf(),
                    g == self@.cells,
                    colsg == self@.state.cols,
                    rect_in_grid(rect, self@.state.rows, self@.state.cols),
                    rect_chars(g, colsg, rect, rect.start_row as int) == out@ + row_chars(
                        g,
                        colsg,
                        row as int,
                        c as int,
                        rect.end_col as int,
                    ) + rect_chars(g, colsg, rect, row as int + 1),
                decreases rect.end_col - c,
            {
                let i = self.cell_index(row as usize, c as usize);
                let cell = self.cells[i];
                let ghost opre = out@;
                let n: usize = if cell.num_chars as usize <= 6 {
                    cell.num_chars as usize
                } else {
                    6
                };
                let mut k: usize = 0;
                while k < n
                    invariant
                        k <= n,
                        n <= 6,
                        (n as int) == cell@.chars.len(),
                        out@ == opre + cell@.chars.take(k as int),
                    decreases n - k,
                {
                    out.push(cell.chars[k]);
                    k = k + 1;
                    proof {
                        assert(cell@.chars.take(k as int) =~= cell@.chars.take(k - 1).push(
                            cell@.chars[k - 1],
                        ));
                        assert(out@ =~= opre + cell@.chars.take(k as int));
                    }
                }
                c = c + 1;
                proof {
                    assert(cell@.chars.take(n as int) =~= cell@.chars);
                    assert(cell@ == g[row as int * colsg + c - 1]);
                    assert(opre + g[row as int * colsg + c - 1].chars + row_chars(
                        g,
                        colsg,
                        row as int,
                        c as int,
                        rect.end_col as int,
                    ) =~= opre + (g[row as int * colsg + c - 1].chars + row_chars(
                        g,
                        colsg,
                        row as int,
                        c as int,
                        rect.end_col as int,
                    )));
                }
            }
            row = row + 1;
            proof {
                assert(row_chars(g, colsg, row - 1, rect.end_col as int, rect.end_col as int)
                    =~= Seq::<u32>::empty());
                assert(out@ + Seq::<u32>::empty() =~= out@);
            }
        }
        proof {
            assert(rect_chars(g, colsg, rect, rect.end_row as int) =~= Seq::<u32>::empty());
            assert(out@ + Seq::<u32>::empty() =~= out@);
        }
        out
    }

    /// The text of `rect`: its codepoints UTF-8 encoded, exactly
    /// [`text_of`] of [`rect_chars`].  A pure read.
    pub fn get_text(&self, rect: VTermRect) -> (r: Vec<u8>)
        requires
            self.wf(),
            rect_in_grid(rect, self@.state.rows, self@.state.cols),
        ensures
            r@ == text_of(rect_chars(self@.cells, self@.state.cols, rect, rect.start_row as int)),
    {
        let chars = self.get_chars(rect);
        let mut out: Vec<u8> = Vec::new();
        proof {
            assert(chars@.skip(0) =~= chars@);
            assert(Seq::<u8>::empty() + text_of(chars@) =~= text_of(chars@));
        }
        let mut i: usize = 0;
        while i < chars.len()
            invariant
                i <= chars@.len(),
                text_of(chars@) == out@ + text_of(chars@.skip(i as int)),
            decreases chars@.len() - i,
        {
            let mut enc = crate::output::utf8_encode(chars[i]);
            out.append(&mut enc);
            i = i + 1;
            proof {
                assert(chars@.skip(i - 1).drop_first() =~= chars@.skip(i as int));
                assert(chars@.skip(i - 1)[0] == chars@[i - 1]);
                assert(out@ + text_of(chars@.skip(i as int)) =~= (out@ + text_of(
                    chars@.skip(i as int),
                )));
            }
        }
        proof {
            assert(chars@.skip(chars@.len() as int) =~= Seq::<u32>::empty());
            assert(out@ + Seq::<u8>::empty() =~= out@);
        }
        out
    }

    /// The maximal horizontal run around `pos` whose cells agree with the
    /// cell at `pos` on every attribute the mask selects; `None` outside
    /// the grid.  A pure read.
    pub fn get_attrs_extent(&self, pos: VTermPos, mask: VTermAttrMask) -> (r: Option<VTermRect>)
        requires
            self.wf(),
        ensures
            (0 <= pos.row < self@.state.rows && 0 <= pos.col < self@.state.cols) ==> ({
                let base = self@.cells[pos.row * self@.state.cols + pos.col].pen;
                &&& r is Some
                &&& r->0.start_row == pos.row
                &&& r->0.end_row == pos.row + 1
                &&& r->0.start_col <= pos.col < r->0.end_col <= self@.state.cols
                &&& 0 <= r->0.start_col
                &&& forall|c: int|
                    r->0.start_col <= c < r->0.end_col ==> pens_match(
                        mask,
                        (#[trigger] self@.cells[pos.row * self@.state.cols + c]).pen,
                        base,
                    )
                &&& r->0.start_col > 0 ==> !pens_match(
                    mask,
                    self@.cells[pos.row * self@.state.cols + r->0.start_col - 1].pen,
                    base,
                )
                &&& r->0.end_col < self@.state.cols ==> !pens_match(
                    mask,
                    self@.cells[pos.row * self@.state.cols + r->0.end_col].pen,
                    base,
                )
            }),
            !(0 <= pos.row < self@.state.rows && 0 <= pos.col < self@.state.cols) ==> r is None,
    {
        let (rows, cols) = self.state.get_size();
        if !(pos.row >= 0 && (pos.row as u32) < rows as u32 && pos.col >= 0 && (pos.col as u32)
            < cols as u32) {
            return None;
        }
        let row = pos.row as usize;
        let base = self.cells[self.cell_index(row, pos.col as usize)].pen;
        let mut sc: usize = pos.col as usize;
        while sc > 0 && self.pens_match_exec(mask, row, sc - 1, base)
            invariant
                0 <= sc as int <= pos.col,
                0 <= pos.row < self@.state.rows,
                0 <= pos.col < self@.state.cols,
                row as int == pos.row,
                self.wf(),
                base == self@.cells[pos.row * self@.state.cols + pos.col].pen,
                forall|c: int|
                    sc <= c <= pos.col ==> pens_match(
                        mask,
                        (#[trigger] self@.cells[pos.row * self@.state.cols + c]).pen,
                        base,
                    ),
            decreases sc,
        {
            sc = sc - 1;
        }
        let mut ec: usize = pos.col as usize + 1;
        while ec < cols as usize && self.pens_match_exec(mask, row, ec, base)
            invariant
                pos.col < ec as int <= self@.state.cols,
                0 <= pos.row < self@.state.rows,
                0 <= pos.col < self@.state.cols,
                row as int == pos.row,
                cols as int == self@.state.cols,
                self.wf(),
                base == self@.cells[pos.row * self@.state.cols + pos.col].pen,
                forall|c: int|
                    pos.col < c < ec ==> pens_match(
                        mask,
                        (#[trigger] self@.cells[pos.row * self@.state.cols + c]).pen,
                        base,
                    ),
            decreases self@.state.cols - ec,
        {
            ec = ec + 1;
        }
        Some(
            VTermRect {
                start_row: pos.row,
                end_row: pos.row + 1,
                start_col: sc as i32,
                end_col: ec as i32,
            },
        )
    }

    /// Whether the cell at `(row, c)` agrees with `base` under `mask`.
    fn pens_match_exec(&self, mask: VTermAttrMask, row: usize, c: usize, base: VTermPen) -> (r:
        bool)
        requires
            self.wf(),
            (row as int) < self@.state.rows,
            (c as int) < self@.state.cols,
        ensures
            r == pens_match(mask, self@.cells[row * self@.state.cols + c].pen, base),
    {
        let i = self.cell_index(row, c);
        let p = self.cells[i].pen;
        (!mask.bold || p.bold == base.bold) && (!mask.underline || p.underline == base.underline)
            && (!mask.italic || p.italic == base.italic) && (!mask.blink || p.blink == base.blink)
            && (!mask.reverse || p.reverse == base.reverse) && (!mask.strike || p.strike
            == base.strike) && (!mask.font || p.font == base.font) && (!mask.foreground || p.fg
            == base.fg) && (!mask.background || p.bg == base.bg)
    }
}

} // verus!
