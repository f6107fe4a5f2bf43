//! The terminal instance: parser, state and screen wired together, with a
//! bounded output buffer for application replies and encoded input.

use vstd::prelude::*;
use crate::output::{
    encode_key, encode_mouse, encode_unichar, key_bytes, mouse_bytes, unichar_bytes, OutputBuffer,
    VTermKey, VTermModifier,
};
use crate::parser::{evs_view, parser_run, Parser, ParserSt, VTermEvent};
use crate::screen::{ScreenV, VTermDamageSize, VTermScreen};
use crate::state::{dsr_bytes, is_dsr_query, st_run, st_step, StateAction, TermStateV};
use crate::geom::VTermRect;
use crate::pen::VTermValue;

verus! {

/// Capacity of the output buffer holding replies to the application.
pub const OUTPUT_BUFFER_CAP: usize = 4096;

/// Unfolding [`st_run`] at the last event.
pub proof fn lemma_st_run_snoc(s: TermStateV, evs: Seq<crate::parser::EventV>, e: crate::parser::EventV)
    ensures
        st_run(s, evs.push(e)) == st_step(st_run(s, evs), e),
    decreases evs.len(),
{
    reveal_with_fuel(st_run, 3);
    if evs.len() == 0 {
        assert(evs.push(e)[0] == e);
        assert(evs.push(e).drop_first() =~= Seq::<crate::parser::EventV>::empty());
    } else {
        assert(evs.push(e)[0] == evs[0]);
        assert(evs.push(e).drop_first() =~= evs.drop_first().push(e));
        lemma_st_run_snoc(st_step(s, evs[0]), evs.drop_first(), e);
    }
}

/// A whole reply appended only when it fits; a reply that does not fit is
/// dropped whole.
pub open spec fn push_fit(out: Seq<u8>, b: Seq<u8>, cap: int) -> Seq<u8> {
    if out.len() + b.len() <= cap {
        out + b
    } else {
        out
    }
}

/// The output buffer after a sequence of events: each cursor-position
/// query appends the report for the cursor at that point of the state
/// fold; no other event touches the buffer.
pub open spec fn out_run(s: TermStateV, evs: Seq<crate::parser::EventV>, out: Seq<u8>, cap: int) -> Seq<u8>
    decreases evs.len(),
{
    if evs.len() == 0 {
        out
    } else {
        let out1 = if is_dsr_query(evs[0]) {
            push_fit(out, dsr_bytes(s.cur_row, s.cur_col), cap)
        } else {
            out
        };
        out_run(st_step(s, evs[0]), evs.drop_first(), out1, cap)
    }
}

/// Unfolding [`out_run`] at the last event.
pub proof fn lemma_out_run_snoc(
    s: TermStateV,
    evs: Seq<crate::parser::EventV>,
    e: crate::parser::EventV,
    out: Seq<u8>,
    cap: int,
)
    ensures
        out_run(s, evs.push(e), out, cap) == ({
            let o1 = out_run(s, evs, out, cap);
            let s1 = st_run(s, evs);
            if is_dsr_query(e) {
                push_fit(o1, dsr_bytes(s1.cur_row, s1.cur_col), cap)
            } else {
                o1
            }
        }),
    decreases evs.len(),
{
    reveal_with_fuel(out_run, 3);
    reveal_with_fuel(st_run, 3);
    if evs.len() == 0 {
        assert(evs.push(e)[0] == e);
        assert(evs.push(e).drop_first() =~= Seq::<crate::parser::EventV>::empty());
    } else {
        assert(evs.push(e)[0] == evs[0]);
        assert(evs.push(e).drop_first() =~= evs.drop_first().push(e));
        let out1 = if is_dsr_query(evs[0]) {
            push_fit(out, dsr_bytes(s.cur_row, s.cur_col), cap)
        } else {
            out
        };
        lemma_out_run_snoc(st_step(s, evs[0]), evs.drop_first(), e, out1, cap);
    }
}

/// Mathematical image of a terminal instance.
#[verifier::ext_equal]
pub struct TermV {
    pub parser: ParserSt,
    pub screen: ScreenV,
    pub out: Seq<u8>,
}

/// A terminal.  Bytes written to it run through the parser; the events run
/// through the state layer and the screen grid; replies (cursor-position
/// reports, encoded keys) are queued on the output buffer.
pub struct VTerm {
    parser: Parser,
    screen: VTermScreen,
    output: OutputBuffer,
}

impl View for VTerm {
    type V = TermV;

    closed spec fn view(&self) -> TermV {
        TermV { parser: self.parser@, screen: self.screen@, out: self.output@ }
    }
}

impl VTerm {
    pub open spec fn wf(&self) -> bool {
        &&& crate::parser::parser_st_wf(self@.parser)
        &&& crate::screen::screen_wf(self@.screen)
        &&& self.output_wf()
    }

    pub closed spec fn output_wf(&self) -> bool {
        self.output.wf() && self.output.cap_spec() == OUTPUT_BUFFER_CAP
    }

    /// Creates a terminal with the given grid size and a scrollback bound
    /// of `sb_max` rows (0 disables scrollback).
    pub fn new(rows: u16, cols: u16, sb_max: usize) -> (t: VTerm)
        requires
            rows >= 1,
            cols >= 1,
        ensures
            t.wf(),
            t@.parser == (ParserSt { utf8: false, mode: crate::parser::ground0() }),
            t@.screen.state == crate::state::st_init(rows as int, cols as int),
            t@.screen.cells == crate::screen::blank_grid(rows as int, cols as int),
            t@.screen.damage.len() == 0 && !t@.screen.damage_all,
            t@.screen.scrollback.len() == 0,
            t@.out == Seq::<u8>::empty(),
    {
        let t = VTerm {
            parser: Parser::new(false),
            screen: VTermScreen::new(rows, cols, sb_max),
            output: OutputBuffer::new(OUTPUT_BUFFER_CAP),
        };
        proof {
            assert(t.output@.len() <= OUTPUT_BUFFER_CAP);
            assert(t@.screen.cells =~= crate::screen::blank_grid(rows as int, cols as int));
        }
        t
    }

    /// The screen (and through it the state), for queries.
    pub fn screen(&self) -> (r: &VTermScreen)
        ensures
            r@ == self@.screen,
    {
        &self.screen
    }

    pub fn get_size(&self) -> (r: (u16, u16))
        ensures
            r.0 as int == self@.screen.state.rows,
            r.1 as int == self@.screen.state.cols,
    {
        self.screen.state().get_size()
    }

    /// Injects a resize event: the state clamps the new size and the
    /// cursor, and the grid is rebuilt.
    pub fn set_size(&mut self, rows: u16, cols: u16)
        requires
            old(self).wf(),
        ensures
            final(self).wf(),
            final(self)@.screen.state == st_step(
                old(self)@.screen.state,
                crate::parser::EventV::Resize { rows, cols },
            ),
            final(self)@.screen.cells == crate::screen::blank_grid(
                final(self)@.screen.state.rows,
                final(self)@.screen.state.cols,
            ),
            final(self)@.out == old(self)@.out,
            final(self)@.parser == old(self)@.parser,
    {
        let ev = VTermEvent::Resize { rows, cols };
        let acts = self.screen.process_event(&ev);
        proof {
            let ghost mid = crate::screen::VTermScreen::mid_screen(
                old(self)@.screen,
                ev@,
            );
            reveal_with_fuel(crate::screen::screen_run_from, 3);
            assert(self@.screen == crate::screen::screen_run_from(mid, acts@, 0));
            assert(acts@.len() == 1);
            assert(self@.screen == crate::screen::screen_apply(mid, acts@[0]));
        }
    }

    pub fn get_utf8(&self) -> (r: bool)
        ensures
            r == self@.parser.utf8,
    {
        self.parser.is_utf8()
    }

    /// Switches the parser's UTF-8 decode mode.
    pub fn set_utf8(&mut self, utf8: bool)
        requires
            old(self).wf(),
        ensures
            final(self).wf(),
            final(self)@.parser == (ParserSt { utf8: utf8, mode: crate::parser::ground0() }),
            final(self)@.screen == old(self)@.screen,
            final(self)@.out == old(self)@.out,
    {
        self.parser.set_utf8(utf8);
    }

    /// Feeds a chunk of bytes.  The parser resumes from where the previous
    /// chunk stopped, every recognized event is interpreted by the state
    /// layer (the state ends at exactly the fold of [`st_step`] over the
    /// events the chunk produced), the grid is updated, and reports are
    /// queued on the output buffer.  The whole chunk is always consumed.
    pub fn write(&mut self, bytes: &[u8]) -> (n: usize)
        requires
            old(self).wf(),
        ensures
            final(self).wf(),
            n == bytes@.len(),
            final(self)@.parser == parser_run(old(self)@.parser, bytes@).0,
            final(self)@.screen.state == st_run(
                old(self)@.screen.state,
                parser_run(old(self)@.parser, bytes@).1,
            ),
            final(self)@.out == out_run(
                old(self)@.screen.state,
                parser_run(old(self)@.parser, bytes@).1,
                old(self)@.out,
                OUTPUT_BUFFER_CAP as int,
            ),
    {
        let events = self.parser.feed(bytes);
        let ghost evsv = parser_run(old(self)@.parser, bytes@).1;
        let ghost st0 = self@.screen.state;
        let ghost out0 = self@.out;
        let mut i: usize = 0;
        proof {
            assert(evsv.take(0) =~= Seq::<crate::parser::EventV>::empty());
        }
        while i < events.len()
            invariant
                i <= events@.len(),
                evs_view(events@) == evsv,
                crate::screen::screen_wf(self@.screen),
                self.output_wf(),
                self@.parser == parser_run(old(self)@.parser, bytes@).0,
                self@.screen.state == st_run(st0, evsv.take(i as int)),
                self@.out == out_run(st0, evsv.take(i as int), out0, OUTPUT_BUFFER_CAP as int),
            decreases events@.len() - i,
        {
            let ghost spre = self@.screen.state;
            let ghost opre = self@.out;
            let acts = self.screen.process_event(&events[i]);
            let mut k: usize = 0;
            while k < acts.len()
                invariant
                    k <= acts@.len(),
                    i < evsv.len() || evsv.len() == 0,
                    crate::screen::screen_wf(self@.screen),
                    self.output_wf(),
                    self@.parser == parser_run(old(self)@.parser, bytes@).0,
                    self@.screen.state == st_step(spre, evsv[i as int]),
                    is_dsr_query(evsv[i as int]) ==> acts@.len() == 1 && acts@[0] is Report
                        && acts@[0]->Report_bytes@ == dsr_bytes(spre.cur_row, spre.cur_col),
                    !is_dsr_query(evsv[i as int]) ==> crate::state::no_reports(acts@),
                    self@.out == (if is_dsr_query(evsv[i as int]) && k > 0 {
                        push_fit(
                            opre,
                            dsr_bytes(spre.cur_row, spre.cur_col),
                            OUTPUT_BUFFER_CAP as int,
                        )
                    } else {
                        opre
                    }),
                decreases acts@.len() - k,
            {
                match &acts[k] {
                    StateAction::Report { bytes } => {
                        let _ = self.output.push_reply(bytes);
                    },
                    _ => {},
                }
                k = k + 1;
            }
            i = i + 1;
            proof {
                lemma_st_run_snoc(st0, evsv.take(i - 1), evsv[i - 1]);
                lemma_out_run_snoc(
                    st0,
                    evsv.take(i - 1),
                    evsv[i - 1],
                    out0,
                    OUTPUT_BUFFER_CAP as int,
                );
                assert(evsv.take(i as int) =~= evsv.take(i - 1).push(evsv[i - 1]));
            }
        }
        proof {
            assert(evsv.take(evsv.len() as int) =~= evsv);
        }
        bytes.len()
    }

    /// Total capacity of the output buffer.
    pub fn output_buffer_size(&self) -> (r: usize)
        requires
            self.wf(),
        ensures
            r == OUTPUT_BUFFER_CAP,
    {
        self.output.buffer_size()
    }

    /// Bytes currently queued for the application.
    pub fn output_buffer_current(&self) -> (r: usize)
        ensures
            r == self@.out.len(),
    {
        self.output.buffer_current()
    }

    /// Remaining capacity of the output buffer.
    pub fn output_buffer_remaining(&self) -> (r: usize)
        requires
            self.wf(),
        ensures
            r == OUTPUT_BUFFER_CAP - self@.out.len(),
    {
        self.output.buffer_remaining()
    }

    /// Reads and drains up to `len` queued bytes.
    pub fn output_read(&mut self, len: usize) -> (r: Vec<u8>)
        requires
            old(self).wf(),
        ensures
            final(self).wf(),
            r@ == old(self)@.out.take(
                crate::output::min_spec(len as int, old(self)@.out.len() as int),
            ),
            final(self)@.out == old(self)@.out.skip(
                crate::output::min_spec(len as int, old(self)@.out.len() as int),
            ),
            final(self)@.screen == old(self)@.screen,
            final(self)@.parser == old(self)@.parser,
    {
        self.output.read(len)
    }

    /// Encodes a character keypress into the output buffer; dropped whole
    /// when it does not fit.
    pub fn keyboard_unichar(&mut self, ch: u32, modifier: VTermModifier) -> (ok: bool)
        requires
            old(self).wf(),
        ensures
            final(self).wf(),
            ok == (old(self)@.out.len() + unichar_bytes(ch, modifier).len() <= OUTPUT_BUFFER_CAP),
            ok ==> final(self)@.out == old(self)@.out + unichar_bytes(ch, modifier),
            !ok ==> final(self)@.out == old(self)@.out,
    {
        let bytes = encode_unichar(ch, modifier);
        self.output.push_reply(&bytes)
    }

    /// Encodes a non-character keypress into the output buffer.
    pub fn keyboard_key(&mut self, key: VTermKey, modifier: VTermModifier) -> (ok: bool)
        requires
            old(self).wf(),
        ensures
            final(self).wf(),
            ({
                let enc = if modifier.alt && key_bytes(key).len() > 0 {
                    seq![0x1bu8] + key_bytes(key)
                } else {
                    key_bytes(key)
                };
                &&& ok == (old(self)@.out.len() + enc.len() <= OUTPUT_BUFFER_CAP)
                &&& ok ==> final(self)@.out == old(self)@.out + enc
                &&& !ok ==> final(self)@.out == old(self)@.out
            }),
    {
        let bytes = encode_key(key, modifier);
        self.output.push_reply(&bytes)
    }

    /// Encodes a mouse button event (SGR form) when mouse reporting is on.
    pub fn mouse_button(&mut self, button: u32, pressed: bool, row: u16, col: u16) -> (ok: bool)
        requires
            old(self).wf(),
            row < 0xffff,
            col < 0xffff,
        ensures
            final(self).wf(),
            old(self)@.screen.state.mouse_mode == 0 ==> !ok && final(self)@.out == old(self)@.out,
            old(self)@.screen.state.mouse_mode != 0 ==> ({
                let enc = mouse_bytes(button, pressed, row as u32, col as u32);
                &&& ok == (old(self)@.out.len() + enc.len() <= OUTPUT_BUFFER_CAP)
                &&& ok ==> final(self)@.out == old(self)@.out + enc
                &&& !ok ==> final(self)@.out == old(self)@.out
            }),
    {
        let mode = self.screen.state().get_termprop(crate::pen::VTermProp::Mouse);
        let m = match mode.number() {
            Some(v) => v,
            None => 0,
        };
        if m == 0 {
            return false;
        }
        proof {
            assert(m as int == old(self)@.screen.state.mouse_mode);
            assert(old(self)@.screen.state.mouse_mode != 0);
        }
        let bytes = encode_mouse(button, pressed, row as u32, col as u32);
        let ok = self.output.push_reply(&bytes);
        proof {
            assert(self@.out == if ok {
                old(self)@.out + mouse_bytes(button, pressed, row as u32, col as u32)
            } else {
                old(self)@.out
            });
        }
        ok
    }

    /// Encodes a mouse motion event when motion reporting (mode 1002 or
    /// 1003) is on; button 35 marks motion with no button.
    pub fn mouse_move(&mut self, row: u16, col: u16) -> (ok: bool)
        requires
            old(self).wf(),
            row < 0xffff,
            col < 0xffff,
        ensures
            final(self).wf(),
            old(self)@.screen.state.mouse_mode < 2 ==> !ok && final(self)@.out == old(self)@.out,
            old(self)@.screen.state.mouse_mode >= 2 ==> ({
                let enc = mouse_bytes(35, true, row as u32, col as u32);
                &&& ok == (old(self)@.out.len() + enc.len() <= OUTPUT_BUFFER_CAP)
                &&& ok ==> final(self)@.out == old(self)@.out + enc
                &&& !ok ==> final(self)@.out == old(self)@.out
            }),
    {
        let mode = self.screen.state().get_termprop(crate::pen::VTermProp::Mouse);
        let m = match mode.number() {
            Some(v) => v,
            None => 0,
        };
        if m < 2 {
            return false;
        }
        proof {
            assert(m as int == old(self)@.screen.state.mouse_mode);
            assert(old(self)@.screen.state.mouse_mode >= 2);
        }
        let bytes = encode_mouse(35, true, row as u32, col as u32);
        let ok = self.output.push_reply(&bytes);
        proof {
            assert(self@.out == if ok {
                old(self)@.out + mouse_bytes(35, true, row as u32, col as u32)
            } else {
                old(self)@.out
            });
        }
        ok
    }

    /// Resets the terminal; see [`crate::state::st_reset`].
    pub fn reset(&mut self, hard: bool)
        requires
            old(self).wf(),
        ensures
            final(self).wf(),
            final(self)@.screen.state == crate::state::st_reset(old(self)@.screen.state, hard),
            forall|i: int|
                0 <= i < final(self)@.screen.cells.len() ==> final(self)@.screen.cells[i]
                    == crate::screen::erased_cell(crate::screen::default_pen_of()),
            final(self)@.out == old(self)@.out,
            final(self)@.parser == old(self)@.parser,
    {
        self.screen.reset(hard);
    }

    /// Sets the damage merge granularity.
    pub fn set_damage_merge(&mut self, mode: VTermDamageSize)
        requires
            old(self).wf(),
        ensures
            final(self).wf(),
            final(self)@.screen == (ScreenV { merge: mode, ..old(self)@.screen }),
    {
        self.screen.set_damage_merge(mode);
    }

    /// Flushes pending damage; see [`crate::screen::dmg_flush`].
    pub fn flush_damage(&mut self) -> (r: Vec<VTermRect>)
        requires
            old(self).wf(),
        ensures
            final(self).wf(),
            r@ == crate::screen::dmg_flush(
                old(self)@.screen.damage_all,
                old(self)@.screen.damage,
                old(self)@.screen.state.rows,
                old(self)@.screen.state.cols,
            ),
            final(self)@.screen == (ScreenV {
                damage: Seq::empty(),
                damage_all: false,
                ..old(self)@.screen
            }),
            final(self)@.out == old(self)@.out,
            final(self)@.parser == old(self)@.parser,
    {
        self.screen.flush_damage()
    }
}

} // verus!
