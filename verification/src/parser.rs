//! Byte-stream parser: a resumable state machine that turns raw bytes into
//! discrete events (text, control bytes, escape / CSI / OSC / DCS sequences).
//!
//! The machine is modelled by [`parser_step`], a pure function from a parser
//! state and one input byte to the next state and the events emitted for that
//! byte, folded over a chunk by [`parser_run`].  [`Parser::feed`] is proved to
//! implement exactly that fold, and [`lemma_parser_run_concat`] shows that the
//! fold over a concatenation equals the two folds in sequence, so feeding a
//! stream in chunks yields the same events as feeding it whole, however it is
//! split.

use vstd::prelude::*;

verus! {

/// Most CSI parameters retained in one sequence; further ones are dropped.
pub const MAX_CSI_PARAMS: usize = 16;

/// Largest value a CSI parameter can take; larger values saturate.
pub const MAX_CSI_PARAM_VALUE: u32 = 65535;

/// Most payload bytes retained for an OSC or DCS string; further bytes are
/// dropped.
pub const MAX_STRING_LEN: usize = 256;

/// Codepoint emitted for a malformed UTF-8 sequence.
pub const REPLACEMENT_CHAR: u32 = 0xFFFD;

/// One CSI parameter.  `more` is true for a non-final subparameter, i.e. one
/// followed by `:` rather than `;` or the final byte.  An empty parameter is
/// reported with value 0.
#[derive(Clone, Copy, PartialEq, Eq, Structural, Debug)]
pub struct CsiParam {
    pub value: u32,
    pub more: bool,
}

/// A parsed event.  Text carries one decoded codepoint per event, so that the
/// event sequence for a byte stream does not depend on how the stream is
/// split into chunks.
#[derive(Debug)]
pub enum VTermEvent {
    /// One printable codepoint (decoded from UTF-8 when that mode is on).
    Text { ch: u32 },
    /// A single C0 or C1 control byte.
    Control { byte: u8 },
    /// A complete non-CSI escape sequence: intermediates plus final byte.
    Escape { bytes: Vec<u8> },
    /// A complete CSI sequence.
    Csi { leader: Vec<u8>, params: Vec<CsiParam>, inters: Vec<u8>, final_byte: u8 },
    /// An OSC string payload.
    Osc { payload: Vec<u8> },
    /// A DCS string payload.
    Dcs { payload: Vec<u8> },
    /// An externally injected size change.
    Resize { rows: u16, cols: u16 },
}

/// Mathematical image of an event.
pub enum EventV {
    Text { ch: u32 },
    Control { byte: u8 },
    Escape { bytes: Seq<u8> },
    Csi { leader: Seq<u8>, params: Seq<CsiParam>, inters: Seq<u8>, final_byte: u8 },
    Osc { payload: Seq<u8> },
    Dcs { payload: Seq<u8> },
    Resize { rows: u16, cols: u16 },
}

impl View for VTermEvent {
    type V = EventV;

    open spec fn view(&self) -> EventV {
        match self {
            VTermEvent::Text { ch } => EventV::Text { ch: *ch },
            VTermEvent::Control { byte } => EventV::Control { byte: *byte },
            VTermEvent::Escape { bytes } => EventV::Escape { bytes: bytes@ },
            VTermEvent::Csi { leader, params, inters, final_byte } => EventV::Csi {
                leader: leader@,
                params: params@,
                inters: inters@,
                final_byte: *final_byte,
            },
            VTermEvent::Osc { payload } => EventV::Osc { payload: payload@ },
            VTermEvent::Dcs { payload } => EventV::Dcs { payload: payload@ },
            VTermEvent::Resize { rows, cols } => EventV::Resize { rows: *rows, cols: *cols },
        }
    }
}

pub open spec fn evs_view(v: Seq<VTermEvent>) -> Seq<EventV> {
    v.map_values(|e: VTermEvent| e@)
}

/// Mathematical parser mode.
pub enum ParserMode {
    /// Plain text.  `need` continuation bytes of a UTF-8 sequence are still
    /// outstanding (0 when no codepoint is pending); `val` is the value
    /// accumulated so far.
    Ground { need: u8, val: u32 },
    /// After ESC, with the intermediate bytes collected so far.
    Esc { inters: Seq<u8> },
    /// Inside a CSI sequence.  `cur` is the parameter being accumulated,
    /// `have` whether any parameter byte was seen, `bad` whether the
    /// sequence was found malformed and is to be ignored.
    Csi { leader: Seq<u8>, params: Seq<CsiParam>, cur: u32, have: bool, inters: Seq<u8>, bad: bool },
    /// Inside an OSC (`dcs` false) or DCS (`dcs` true) string; `esc` is true
    /// directly after an ESC byte (a following `\` terminates the string).
    Str { dcs: bool, buf: Seq<u8>, esc: bool },
}

/// Mathematical parser state: the UTF-8 decode flag plus the current mode.
pub struct ParserSt {
    pub utf8: bool,
    pub mode: ParserMode,
}

pub open spec fn ground0() -> ParserMode {
    ParserMode::Ground { need: 0, val: 0 }
}

pub open spec fn csi_fresh() -> ParserMode {
    ParserMode::Csi {
        leader: Seq::empty(),
        params: Seq::empty(),
        cur: 0,
        have: false,
        inters: Seq::empty(),
        bad: false,
    }
}

pub open spec fn str_fresh(dcs: bool) -> ParserMode {
    ParserMode::Str { dcs: dcs, buf: Seq::empty(), esc: false }
}

pub open spec fn str_event(dcs: bool, buf: Seq<u8>) -> EventV {
    if dcs {
        EventV::Dcs { payload: buf }
    } else {
        EventV::Osc { payload: buf }
    }
}

/// One byte in ground mode with no pending UTF-8 sequence.
pub open spec fn ground_clean(utf8: bool, b: u8) -> (ParserMode, Seq<EventV>) {
    if b == 0x1b {
        (ParserMode::Esc { inters: Seq::empty() }, Seq::empty())
    } else if b < 0x20 || b == 0x7f {
        (ground0(), seq![EventV::Control { byte: b }])
    } else if b < 0x80 {
        (ground0(), seq![EventV::Text { ch: b as u32 }])
    } else if utf8 {
        if b < 0xc0 {
            (ground0(), seq![EventV::Text { ch: REPLACEMENT_CHAR }])
        } else if b < 0xe0 {
            (ParserMode::Ground { need: 1, val: (b - 0xc0) as u32 }, Seq::empty())
        } else if b < 0xf0 {
            (ParserMode::Ground { need: 2, val: (b - 0xe0) as u32 }, Seq::empty())
        } else if b < 0xf5 {
            (ParserMode::Ground { need: 3, val: (b - 0xf0) as u32 }, Seq::empty())
        } else {
            (ground0(), seq![EventV::Text { ch: REPLACEMENT_CHAR }])
        }
    } else {
        // 8-bit C1 controls act as their 7-bit ESC forms.
        if b == 0x9b {
            (csi_fresh(), Seq::empty())
        } else if b == 0x9d {
            (str_fresh(false), Seq::empty())
        } else if b == 0x90 {
            (str_fresh(true), Seq::empty())
        } else if b < 0xa0 {
            (ground0(), seq![EventV::Control { byte: b }])
        } else {
            (ground0(), seq![EventV::Text { ch: b as u32 }])
        }
    }
}

/// One byte in ground mode, including continuation of a pending UTF-8
/// sequence.  An invalid continuation emits the replacement character and
/// reprocesses the byte from a clean ground state.
pub open spec fn ground_step(utf8: bool, need: u8, val: u32, b: u8) -> (ParserMode, Seq<EventV>) {
    if need == 0 {
        ground_clean(utf8, b)
    } else if 0x80 <= b < 0xc0 {
        let nval = (val * 0x40 + (b - 0x80) as u32) as u32;
        if need == 1 {
            (ground0(), seq![EventV::Text { ch: nval }])
        } else {
            (ParserMode::Ground { need: (need - 1) as u8, val: nval }, Seq::empty())
        }
    } else {
        let (m, evs) = ground_clean(utf8, b);
        (m, seq![EventV::Text { ch: REPLACEMENT_CHAR }] + evs)
    }
}

/// One byte after ESC, with `inters` intermediates collected so far.
pub open spec fn esc_after(inters: Seq<u8>, b: u8) -> (ParserMode, Seq<EventV>) {
    if b == 0x1b {
        (ParserMode::Esc { inters: Seq::empty() }, Seq::empty())
    } else if b == 0x18 || b == 0x1a {
        (ground0(), Seq::empty())
    } else if b < 0x20 || b == 0x7f {
        (ParserMode::Esc { inters: inters }, seq![EventV::Control { byte: b }])
    } else if b < 0x30 {
        if inters.len() < 2 {
            (ParserMode::Esc { inters: inters.push(b) }, Seq::empty())
        } else {
            (ground0(), Seq::empty())
        }
    } else if b <= 0x7e {
        if inters.len() == 0 && b == 0x5b {
            (csi_fresh(), Seq::empty())
        } else if inters.len() == 0 && b == 0x5d {
            (str_fresh(false), Seq::empty())
        } else if inters.len() == 0 && b == 0x50 {
            (str_fresh(true), Seq::empty())
        } else {
            (ground0(), seq![EventV::Escape { bytes: inters.push(b) }])
        }
    } else {
        (ground0(), Seq::empty())
    }
}

/// One byte inside a CSI sequence.
pub open spec fn csi_after(
    leader: Seq<u8>,
    params: Seq<CsiParam>,
    cur: u32,
    have: bool,
    inters: Seq<u8>,
    bad: bool,
    b: u8,
) -> (ParserMode, Seq<EventV>) {
    if b == 0x1b {
        (ParserMode::Esc { inters: Seq::empty() }, Seq::empty())
    } else if b == 0x18 || b == 0x1a {
        (ground0(), Seq::empty())
    } else if b < 0x20 || b == 0x7f {
        (
            ParserMode::Csi { leader, params, cur, have, inters, bad },
            seq![EventV::Control { byte: b }],
        )
    } else if 0x30 <= b <= 0x39 {
        let d = (b - 0x30) as u32;
        let n = if cur * 10 + d > MAX_CSI_PARAM_VALUE {
            MAX_CSI_PARAM_VALUE
        } else {
            (cur * 10 + d) as u32
        };
        let nbad = bad || inters.len() > 0;
        (ParserMode::Csi { leader, params, cur: n, have: true, inters, bad: nbad }, Seq::empty())
    } else if b == 0x3a || b == 0x3b {
        let nparams = if params.len() < MAX_CSI_PARAMS {
            params.push(CsiParam { value: cur, more: b == 0x3a })
        } else {
            params
        };
        let nbad = bad || inters.len() > 0;
        (
            ParserMode::Csi { leader, params: nparams, cur: 0, have: true, inters, bad: nbad },
            Seq::empty(),
        )
    } else if 0x3c <= b <= 0x3f {
        if !have && params.len() == 0 && inters.len() == 0 && leader.len() < 2 {
            (
                ParserMode::Csi { leader: leader.push(b), params, cur, have, inters, bad },
                Seq::empty(),
            )
        } else {
            (ParserMode::Csi { leader, params, cur, have, inters, bad: true }, Seq::empty())
        }
    } else if b < 0x30 {
        if inters.len() < 2 {
            (
                ParserMode::Csi { leader, params, cur, have, inters: inters.push(b), bad },
                Seq::empty(),
            )
        } else {
            (ParserMode::Csi { leader, params, cur, have, inters, bad: true }, Seq::empty())
        }
    } else {
        // 0x40..=0x7e: final byte.
        if bad {
            (ground0(), Seq::empty())
        } else {
            let ps = if have && params.len() < MAX_CSI_PARAMS {
                params.push(CsiParam { value: cur, more: false })
            } else {
                params
            };
            (
                ground0(),
                seq![EventV::Csi { leader: leader, params: ps, inters: inters, final_byte: b }],
            )
        }
    }
}

/// One byte inside an OSC or DCS string.
pub open spec fn str_after(dcs: bool, buf: Seq<u8>, esc: bool, b: u8) -> (ParserMode, Seq<EventV>) {
    if esc {
        if b == 0x5c {
            (ground0(), seq![str_event(dcs, buf)])
        } else {
            // The ESC aborted the string: deliver what was collected, then
            // process the byte as following a bare ESC.
            let (m, evs) = esc_after(Seq::empty(), b);
            (m, seq![str_event(dcs, buf)] + evs)
        }
    } else if b == 0x1b {
        (ParserMode::Str { dcs, buf, esc: true }, Seq::empty())
    } else if b == 0x07 && !dcs {
        (ground0(), seq![str_event(dcs, buf)])
    } else if b == 0x18 || b == 0x1a {
        (ground0(), Seq::empty())
    } else if b == 0x9c {
        (ground0(), seq![str_event(dcs, buf)])
    } else if b < 0x20 {
        (ParserMode::Str { dcs, buf, esc: false }, Seq::empty())
    } else {
        let nbuf = if buf.len() < MAX_STRING_LEN {
            buf.push(b)
        } else {
            buf
        };
        (ParserMode::Str { dcs, buf: nbuf, esc: false }, Seq::empty())
    }
}

/// One byte: the transition of the whole parser.
pub open spec fn parser_step(s: ParserSt, b: u8) -> (ParserSt, Seq<EventV>) {
    let r = match s.mode {
        ParserMode::Ground { need, val } => ground_step(s.utf8, need, val, b),
        ParserMode::Esc { inters } => esc_after(inters, b),
        ParserMode::Csi { leader, params, cur, have, inters, bad } => csi_after(
            leader,
            params,
            cur,
            have,
            inters,
            bad,
            b,
        ),
        ParserMode::Str { dcs, buf, esc } => str_after(dcs, buf, esc, b),
    };
    (ParserSt { utf8: s.utf8, mode: r.0 }, r.1)
}

/// The fold of [`parser_step`] over a chunk of bytes.
pub open spec fn parser_run(s: ParserSt, bs: Seq<u8>) -> (ParserSt, Seq<EventV>)
    decreases bs.len(),
{
    if bs.len() == 0 {
        (s, Seq::empty())
    } else {
        let r1 = parser_step(s, bs[0]);
        let r2 = parser_run(r1.0, bs.drop_first());
        (r2.0, r1.1 + r2.1)
    }
}

/// Unfolding [`parser_run`] at the last byte.
pub proof fn lemma_parser_run_snoc(s: ParserSt, bs: Seq<u8>, b: u8)
    ensures
        parser_run(s, bs.push(b)).0 == parser_step(parser_run(s, bs).0, b).0,
        parser_run(s, bs.push(b)).1 == parser_run(s, bs).1 + parser_step(
            parser_run(s, bs).0,
            b,
        ).1,
    decreases bs.len(),
{
    reveal_with_fuel(parser_run, 3);
    if bs.len() == 0 {
        assert(bs.push(b)[0] == b);
        assert(bs.push(b).drop_first() =~= Seq::<u8>::empty());
        assert(parser_run(s, bs.push(b)).1 =~= parser_run(s, bs).1 + parser_step(
            parser_run(s, bs).0,
            b,
        ).1);
    } else {
        assert(bs.push(b)[0] == bs[0]);
        assert(bs.push(b).drop_first() =~= bs.drop_first().push(b));
        let s1 = parser_step(s, bs[0]).0;
        lemma_parser_run_snoc(s1, bs.drop_first(), b);
        assert(parser_run(s, bs.push(b)).1 =~= parser_run(s, bs).1 + parser_step(
            parser_run(s, bs).0,
            b,
        ).1);
    }
}

/// Parser resumability: running the machine over a concatenation `a + b`
/// reaches the same state and emits the same event sequence as running it
/// over `a` and then, from the state so reached, over `b`.  Applied
/// repeatedly, any split of a byte stream into chunks yields the events of
/// the whole stream.
pub proof fn lemma_parser_run_concat(s: ParserSt, a: Seq<u8>, b: Seq<u8>)
    ensures
        parser_run(s, a + b).0 == parser_run(parser_run(s, a).0, b).0,
        parser_run(s, a + b).1 == parser_run(s, a).1 + parser_run(parser_run(s, a).0, b).1,
    decreases a.len(),
{
    if a.len() == 0 {
        assert(a + b =~= b);
        assert(parser_run(s, a).1 + parser_run(parser_run(s, a).0, b).1 =~= parser_run(s, b).1);
    } else {
        assert((a + b)[0] == a[0]);
        assert((a + b).drop_first() =~= a.drop_first() + b);
        let s1 = parser_step(s, a[0]).0;
        lemma_parser_run_concat(s1, a.drop_first(), b);
        assert(parser_run(s, a + b).1 =~= parser_run(s, a).1 + parser_run(
            parser_run(s, a).0,
            b,
        ).1);
    }
}

/// Upper bound on the UTF-8 accumulator when `need` continuation bytes are
/// still outstanding.
pub open spec fn utf_val_bound(need: u8) -> u32 {
    if need == 1 {
        0x8000
    } else if need == 2 {
        0x200
    } else {
        0x8
    }
}

/// Bounds that the machine maintains on its buffers and accumulators.
pub open spec fn parser_st_wf(s: ParserSt) -> bool {
    match s.mode {
        ParserMode::Ground { need, val } => need <= 3 && (need >= 1 ==> val < utf_val_bound(need)),
        ParserMode::Esc { inters } => inters.len() <= 2,
        ParserMode::Csi { leader, params, cur, have, inters, bad } => leader.len() <= 2
            && params.len() <= MAX_CSI_PARAMS && cur <= MAX_CSI_PARAM_VALUE && inters.len() <= 2,
        ParserMode::Str { dcs, buf, esc } => buf.len() <= MAX_STRING_LEN,
    }
}

enum PMode {
    Ground,
    Esc,
    Csi,
    Str,
}

/// The resumable parser.  Its state survives across [`Parser::feed`] calls,
/// so a sequence split between chunks is recognized as if fed whole.
pub struct Parser {
    utf8: bool,
    mode: PMode,
    utf_need: u8,
    utf_val: u32,
    esc_inters: Vec<u8>,
    csi_leader: Vec<u8>,
    csi_params: Vec<CsiParam>,
    csi_cur: u32,
    csi_have: bool,
    csi_inters: Vec<u8>,
    csi_bad: bool,
    str_dcs: bool,
    str_buf: Vec<u8>,
    str_esc: bool,
}

impl View for Parser {
    type V = ParserSt;

    closed spec fn view(&self) -> ParserSt {
        ParserSt {
            utf8: self.utf8,
            mode: match self.mode {
                PMode::Ground => ParserMode::Ground { need: self.utf_need, val: self.utf_val },
                PMode::Esc => ParserMode::Esc { inters: self.esc_inters@ },
                PMode::Csi => ParserMode::Csi {
                    leader: self.csi_leader@,
                    params: self.csi_params@,
                    cur: self.csi_cur,
                    have: self.csi_have,
                    inters: self.csi_inters@,
                    bad: self.csi_bad,
                },
                PMode::Str => ParserMode::Str {
                    dcs: self.str_dcs,
                    buf: self.str_buf@,
                    esc: self.str_esc,
                },
            },
        }
    }
}

impl Parser {
    pub open spec fn wf(&self) -> bool {
        parser_st_wf(self@)
    }

    pub fn new(utf8: bool) -> (p: Parser)
        ensures
            p@ == (ParserSt { utf8: utf8, mode: ground0() }),
            p.wf(),
    {
        Parser {
            utf8,
            mode: PMode::Ground,
            utf_need: 0,
            utf_val: 0,
            esc_inters: Vec::new(),
            csi_leader: Vec::new(),
            csi_params: Vec::new(),
            csi_cur: 0,
            csi_have: false,
            csi_inters: Vec::new(),
            csi_bad: false,
            str_dcs: false,
            str_buf: Vec::new(),
            str_esc: false,
        }
    }

    pub fn is_utf8(&self) -> (r: bool)
        ensures
            r == self@.utf8,
    {
        self.utf8
    }

    /// Switches UTF-8 decoding; any pending partial state is discarded.
    pub fn set_utf8(&mut self, utf8: bool)
        ensures
            final(self)@ == (ParserSt { utf8: utf8, mode: ground0() }),
            final(self).wf(),
    {
        self.utf8 = utf8;
        self.mode = PMode::Ground;
        self.utf_need = 0;
        self.utf_val = 0;
    }

    /// One byte in ground mode with no pending UTF-8 sequence.
    fn ground_clean_byte(&mut self, b: u8) -> (r: Vec<VTermEvent>)
        requires
            old(self)@.mode is Ground,
        ensures
            final(self)@.utf8 == old(self)@.utf8,
            (final(self)@.mode, evs_view(r@)) == ground_clean(old(self)@.utf8, b),
            parser_st_wf(final(self)@),
    {
        let mut evs: Vec<VTermEvent> = Vec::new();
        if b == 0x1b {
            self.mode = PMode::Esc;
            self.esc_inters = Vec::new();
        } else if b < 0x20 || b == 0x7f {
            self.utf_need = 0;
            self.utf_val = 0;
            evs.push(VTermEvent::Control { byte: b });
        } else if b < 0x80 {
            self.utf_need = 0;
            self.utf_val = 0;
            evs.push(VTermEvent::Text { ch: b as u32 });
        } else if self.utf8 {
            if b < 0xc0 {
                self.utf_need = 0;
                self.utf_val = 0;
                evs.push(VTermEvent::Text { ch: REPLACEMENT_CHAR });
            } else if b < 0xe0 {
                self.utf_need = 1;
                self.utf_val = (b - 0xc0) as u32;
            } else if b < 0xf0 {
                self.utf_need = 2;
                self.utf_val = (b - 0xe0) as u32;
            } else if b < 0xf5 {
                self.utf_need = 3;
                self.utf_val = (b - 0xf0) as u32;
            } else {
                self.utf_need = 0;
                self.utf_val = 0;
                evs.push(VTermEvent::Text { ch: REPLACEMENT_CHAR });
            }
        } else {
            if b == 0x9b {
                self.mode = PMode::Csi;
                self.csi_leader = Vec::new();
                self.csi_params = Vec::new();
                self.csi_cur = 0;
                self.csi_have = false;
                self.csi_inters = Vec::new();
                self.csi_bad = false;
            } else if b == 0x9d {
                self.mode = PMode::Str;
                self.str_dcs = false;
                self.str_buf = Vec::new();
                self.str_esc = false;
            } else if b == 0x90 {
                self.mode = PMode::Str;
                self.str_dcs = true;
                self.str_buf = Vec::new();
                self.str_esc = false;
            } else if b < 0xa0 {
                self.utf_need = 0;
                self.utf_val = 0;
                evs.push(VTermEvent::Control { byte: b });
            } else {
                self.utf_need = 0;
                self.utf_val = 0;
                evs.push(VTermEvent::Text { ch: b as u32 });
            }
        }
        proof {
            assert(evs_view(evs@) =~= ground_clean(old(self)@.utf8, b).1);
        }
        evs
    }

    /// One byte after ESC.
    fn esc_byte(&mut self, b: u8) -> (r: Vec<VTermEvent>)
        requires
            old(self)@.mode is Esc,
            parser_st_wf(old(self)@),
        ensures
            final(self)@.utf8 == old(self)@.utf8,
            (final(self)@.mode, evs_view(r@)) == esc_after(old(self)@.mode->Esc_inters, b),
            parser_st_wf(final(self)@),
    {
        let mut evs: Vec<VTermEvent> = Vec::new();
        if b == 0x1b {
            self.esc_inters = Vec::new();
        } else if b == 0x18 || b == 0x1a {
            self.mode = PMode::Ground;
            self.utf_need = 0;
            self.utf_val = 0;
        } else if b < 0x20 || b == 0x7f {
            evs.push(VTermEvent::Control { byte: b });
        } else if b < 0x30 {
            if self.esc_inters.len() < 2 {
                self.esc_inters.push(b);
            } else {
                self.mode = PMode::Ground;
                self.utf_need = 0;
                self.utf_val = 0;
            }
        } else if b <= 0x7e {
            if self.esc_inters.len() == 0 && b == 0x5b {
                self.mode = PMode::Csi;
                self.csi_leader = Vec::new();
                self.csi_params = Vec::new();
                self.csi_cur = 0;
                self.csi_have = false;
                self.csi_inters = Vec::new();
                self.csi_bad = false;
            } else if self.esc_inters.len() == 0 && b == 0x5d {
                self.mode = PMode::Str;
                self.str_dcs = false;
                self.str_buf = Vec::new();
                self.str_esc = false;
            } else if self.esc_inters.len() == 0 && b == 0x50 {
                self.mode = PMode::Str;
                self.str_dcs = true;
                self.str_buf = Vec::new();
                self.str_esc = false;
            } else {
                let mut bytes = Vec::new();
                std::mem::swap(&mut bytes, &mut self.esc_inters);
                bytes.push(b);
                self.mode = PMode::Ground;
                self.utf_need = 0;
                self.utf_val = 0;
                evs.push(VTermEvent::Escape { bytes });
            }
        } else {
            self.mode = PMode::Ground;
            self.utf_need = 0;
            self.utf_val = 0;
        }
        proof {
            assert(evs_view(evs@) =~= esc_after(old(self)@.mode->Esc_inters, b).1);
        }
        evs
    }

    /// One byte inside a CSI sequence.
    fn csi_byte(&mut self, b: u8) -> (r: Vec<VTermEvent>)
        requires
            old(self)@.mode is Csi,
            parser_st_wf(old(self)@),
        ensures
            final(self)@.utf8 == old(self)@.utf8,
            (final(self)@.mode, evs_view(r@)) == csi_after(
                old(self)@.mode->Csi_leader,
                old(self)@.mode->Csi_params,
                old(self)@.mode->Csi_cur,
                old(self)@.mode->Csi_have,
                old(self)@.mode->Csi_inters,
                old(self)@.mode->Csi_bad,
                b,
            ),
            parser_st_wf(final(self)@),
    {
        let mut evs: Vec<VTermEvent> = Vec::new();
        if b == 0x1b {
            self.mode = PMode::Esc;
            self.esc_inters = Vec::new();
        } else if b == 0x18 || b == 0x1a {
            self.mode = PMode::Ground;
            self.utf_need = 0;
            self.utf_val = 0;
        } else if b < 0x20 || b == 0x7f {
            evs.push(VTermEvent::Control { byte: b });
        } else if 0x30 <= b && b <= 0x39 {
            let d = (b - 0x30) as u32;
            let n: u32 = if self.csi_cur * 10 + d > MAX_CSI_PARAM_VALUE {
                MAX_CSI_PARAM_VALUE
            } else {
                self.csi_cur * 10 + d
            };
            self.csi_cur = n;
            self.csi_have = true;
            if self.csi_inters.len() > 0 {
                self.csi_bad = true;
            }
        } else if b == 0x3a || b == 0x3b {
            if self.csi_params.len() < MAX_CSI_PARAMS {
                self.csi_params.push(CsiParam { value: self.csi_cur, more: b == 0x3a });
            }
            self.csi_cur = 0;
            self.csi_have = true;
            if self.csi_inters.len() > 0 {
                self.csi_bad = true;
            }
        } else if 0x3c <= b && b <= 0x3f {
            if !self.csi_have && self.csi_params.len() == 0 && self.csi_inters.len() == 0
                && self.csi_leader.len() < 2 {
                self.csi_leader.push(b);
            } else {
                self.csi_bad = true;
            }
        } else if b < 0x30 {
            if self.csi_inters.len() < 2 {
                self.csi_inters.push(b);
            } else {
                self.csi_bad = true;
            }
        } else {
            if self.csi_bad {
                self.mode = PMode::Ground;
                self.utf_need = 0;
                self.utf_val = 0;
            } else {
                if self.csi_have && self.csi_params.len() < MAX_CSI_PARAMS {
                    self.csi_params.push(CsiParam { value: self.csi_cur, more: false });
                }
                let mut leader = Vec::new();
                std::mem::swap(&mut leader, &mut self.csi_leader);
                let mut params = Vec::new();
                std::mem::swap(&mut params, &mut self.csi_params);
                let mut inters = Vec::new();
                std::mem::swap(&mut inters, &mut self.csi_inters);
                self.mode = PMode::Ground;
                self.utf_need = 0;
                self.utf_val = 0;
                evs.push(VTermEvent::Csi { leader, params, inters, final_byte: b });
            }
        }
        proof {
            assert(evs_view(evs@) =~= csi_after(
                old(self)@.mode->Csi_leader,
                old(self)@.mode->Csi_params,
                old(self)@.mode->Csi_cur,
                old(self)@.mode->Csi_have,
                old(self)@.mode->Csi_inters,
                old(self)@.mode->Csi_bad,
                b,
            ).1);
        }
        evs
    }

    /// One byte inside an OSC or DCS string.
    fn str_byte(&mut self, b: u8) -> (r: Vec<VTermEvent>)
        requires
            old(self)@.mode is Str,
            parser_st_wf(old(self)@),
        ensures
            final(self)@.utf8 == old(self)@.utf8,
            (final(self)@.mode, evs_view(r@)) == str_after(
                old(self)@.mode->Str_dcs,
                old(self)@.mode->Str_buf,
                old(self)@.mode->Str_esc,
                b,
            ),
            parser_st_wf(final(self)@),
    {
        let mut evs: Vec<VTermEvent> = Vec::new();
        if self.str_esc {
            let dcs = self.str_dcs;
            let mut payload = Vec::new();
            std::mem::swap(&mut payload, &mut self.str_buf);
            let ev = if dcs {
                VTermEvent::Dcs { payload }
            } else {
                VTermEvent::Osc { payload }
            };
            if b == 0x5c {
                self.mode = PMode::Ground;
                self.utf_need = 0;
                self.utf_val = 0;
                evs.push(ev);
            } else {
                evs.push(ev);
                self.mode = PMode::Esc;
                self.esc_inters = Vec::new();
                let mut rest = self.esc_byte(b);
                evs.append(&mut rest);
            }
        } else if b == 0x1b {
            self.str_esc = true;
        } else if b == 0x07 && !self.str_dcs {
            let dcs = self.str_dcs;
            let mut payload = Vec::new();
            std::mem::swap(&mut payload, &mut self.str_buf);
            self.mode = PMode::Ground;
            self.utf_need = 0;
            self.utf_val = 0;
            if dcs {
                evs.push(VTermEvent::Dcs { payload });
            } else {
                evs.push(VTermEvent::Osc { payload });
            }
        } else if b == 0x18 || b == 0x1a {
            self.mode = PMode::Ground;
            self.utf_need = 0;
            self.utf_val = 0;
        } else if b == 0x9c {
            let dcs = self.str_dcs;
            let mut payload = Vec::new();
            std::mem::swap(&mut payload, &mut self.str_buf);
            self.mode = PMode::Ground;
            self.utf_need = 0;
            self.utf_val = 0;
            if dcs {
                evs.push(VTermEvent::Dcs { payload });
            } else {
                evs.push(VTermEvent::Osc { payload });
            }
        } else if b < 0x20 {
        } else {
            if self.str_buf.len() < MAX_STRING_LEN {
                self.str_buf.push(b);
            }
        }
        proof {
            assert(evs_view(evs@) =~= str_after(
                old(self)@.mode->Str_dcs,
                old(self)@.mode->Str_buf,
                old(self)@.mode->Str_esc,
                b,
            ).1);
        }
        evs
    }

    /// One input byte: implements exactly [`parser_step`].
    fn step_byte(&mut self, b: u8) -> (r: Vec<VTermEvent>)
        requires
            parser_st_wf(old(self)@),
        ensures
            final(self)@ == parser_step(old(self)@, b).0,
            evs_view(r@) == parser_step(old(self)@, b).1,
            parser_st_wf(final(self)@),
    {
        match self.mode {
            PMode::Ground => {
                if self.utf_need == 0 {
                    self.ground_clean_byte(b)
                } else if 0x80 <= b && b < 0xc0 {
                    let nval: u32 = self.utf_val * 0x40 + (b - 0x80) as u32;
                    if self.utf_need == 1 {
                        self.utf_need = 0;
                        self.utf_val = 0;
                        let mut evs: Vec<VTermEvent> = Vec::new();
                        evs.push(VTermEvent::Text { ch: nval });
                        proof {
                            assert(evs_view(evs@) =~= parser_step(old(self)@, b).1);
                        }
                        evs
                    } else {
                        self.utf_need = self.utf_need - 1;
                        self.utf_val = nval;
                        let evs: Vec<VTermEvent> = Vec::new();
                        proof {
                            assert(evs_view(evs@) =~= parser_step(old(self)@, b).1);
                        }
                        evs
                    }
                } else {
                    self.utf_need = 0;
                    self.utf_val = 0;
                    let mut evs: Vec<VTermEvent> = Vec::new();
                    evs.push(VTermEvent::Text { ch: REPLACEMENT_CHAR });
                    let mut rest = self.ground_clean_byte(b);
                    evs.append(&mut rest);
                    proof {
                        assert(evs_view(evs@) =~= parser_step(old(self)@, b).1);
                    }
                    evs
                }
            },
            PMode::Esc => self.esc_byte(b),
            PMode::Csi => self.csi_byte(b),
            PMode::Str => self.str_byte(b),
        }
    }

    /// Feeds one chunk of bytes, resuming from the state the previous chunk
    /// left behind, and returns the events recognized in it.
    pub fn feed(&mut self, bytes: &[u8]) -> (evs: Vec<VTermEvent>)
        requires
            old(self).wf(),
        ensures
            final(self).wf(),
            final(self)@ == parser_run(old(self)@, bytes@).0,
            evs_view(evs@) == parser_run(old(self)@, bytes@).1,
            final(self)@.utf8 == old(self)@.utf8,
    {
        let ghost s0 = self@;
        let mut evs: Vec<VTermEvent> = Vec::new();
        let mut i: usize = 0;
        proof {
            assert(bytes@.take(0) =~= Seq::<u8>::empty());
            assert(evs_view(evs@) =~= Seq::<EventV>::empty());
        }
        while i < bytes.len()
            invariant
                i <= bytes@.len(),
                parser_st_wf(self@),
                self@ == parser_run(s0, bytes@.take(i as int)).0,
                evs_view(evs@) == parser_run(s0, bytes@.take(i as int)).1,
            decreases bytes@.len() - i,
        {
            let ghost pre = bytes@.take(i as int);
            let ghost sc = self@;
            let b = bytes[i];
            let mut step_evs = self.step_byte(b);
            evs.append(&mut step_evs);
            i = i + 1;
            proof {
                lemma_parser_run_snoc(s0, pre, b);
                assert(bytes@.take(i as int) =~= pre.push(b));
                assert(evs_view(evs@) =~= parser_run(s0, pre).1 + parser_step(sc, b).1);
            }
        }
        proof {
            assert(bytes@.take(bytes@.len() as int) =~= bytes@);
        }
        proof {
            lemma_step_preserves_utf8(s0, bytes@);
        }
        evs
    }
}

/// The decode-mode flag is data, not state: no step changes it.
pub proof fn lemma_step_preserves_utf8(s: ParserSt, bs: Seq<u8>)
    ensures
        parser_run(s, bs).0.utf8 == s.utf8,
    decreases bs.len(),
{
    if bs.len() > 0 {
        lemma_step_preserves_utf8(parser_step(s, bs[0]).0, bs.drop_first());
    }
}

} // verus!
