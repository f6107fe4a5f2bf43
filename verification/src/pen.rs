//! The pen: the set of display attributes applied to subsequently written
//! characters, and the application of SGR (CSI `m`) parameter lists to it.

use vstd::prelude::*;
use crate::parser::CsiParam;

verus! {

/// An RGB triple, one byte per channel.
#[derive(Clone, Copy, PartialEq, Eq, Structural, Debug)]
pub struct VTermColor {
    pub red: u8,
    pub green: u8,
    pub blue: u8,
}

/// A pen color: the default for its slot (foreground or background), a
/// palette index, or a direct RGB value.
#[derive(Clone, Copy, PartialEq, Eq, Structural, Debug)]
pub enum PenColor {
    Default,
    Idx { idx: u8 },
    Rgb { color: VTermColor },
}

/// The pen.  `underline` is 0 (none), 1 (single) or 2 (double); `font` is
/// the alternate-font index 0..=9.
#[derive(Clone, Copy, PartialEq, Eq, Structural, Debug)]
pub struct VTermPen {
    pub bold: bool,
    pub underline: u8,
    pub italic: bool,
    pub blink: bool,
    pub reverse: bool,
    pub strike: bool,
    pub font: u8,
    pub fg: PenColor,
    pub bg: PenColor,
}

pub open spec fn pen_wf(p: VTermPen) -> bool {
    p.underline <= 2 && p.font <= 9
}

/// The documented default pen: every attribute off, both colors default.
pub open spec fn default_pen() -> VTermPen {
    VTermPen {
        bold: false,
        underline: 0,
        italic: false,
        blink: false,
        reverse: false,
        strike: false,
        font: 0,
        fg: PenColor::Default,
        bg: PenColor::Default,
    }
}

impl Default for VTermPen {
    fn default() -> (r: VTermPen)
        ensures
            r == default_pen(),
    {
        VTermPen {
            bold: false,
            underline: 0,
            italic: false,
            blink: false,
            reverse: false,
            strike: false,
            font: 0,
            fg: PenColor::Default,
            bg: PenColor::Default,
        }
    }
}

/// One addressable pen attribute.
#[derive(Clone, Copy, PartialEq, Eq, Structural, Debug)]
pub enum VTermAttr {
    Bold,
    Underline,
    Italic,
    Blink,
    Reverse,
    Strike,
    Font,
    Foreground,
    Background,
}

/// One terminal property, distinct from per-cell attributes.
#[derive(Clone, Copy, PartialEq, Eq, Structural, Debug)]
pub enum VTermProp {
    CursorVisible,
    CursorBlink,
    AltScreen,
    Title,
    IconName,
    Reverse,
    CursorShape,
    Mouse,
}

/// The type an attribute or property value takes.
#[derive(Clone, Copy, PartialEq, Eq, Structural, Debug)]
pub enum VTermValueType {
    Bool,
    Int,
    Str,
    Color,
}

/// A tagged attribute or property value.
#[derive(Clone, Debug)]
pub enum VTermValue {
    Bool { v: bool },
    Int { v: i32 },
    Str { v: Vec<u8> },
    Color { v: PenColor },
}

impl VTermValue {
    /// The boolean payload, if this value carries one.
    pub fn boolean(&self) -> (r: Option<bool>)
        ensures
            r == (match self {
                VTermValue::Bool { v } => Some(*v),
                _ => None::<bool>,
            }),
    {
        match self {
            VTermValue::Bool { v } => Some(*v),
            _ => None,
        }
    }

    /// The integer payload, if this value carries one.
    pub fn number(&self) -> (r: Option<i32>)
        ensures
            r == (match self {
                VTermValue::Int { v } => Some(*v),
                _ => None::<i32>,
            }),
    {
        match self {
            VTermValue::Int { v } => Some(*v),
            _ => None,
        }
    }

    /// The string payload, if this value carries one.
    pub fn string(&self) -> (r: Option<&Vec<u8>>)
        ensures
            match self {
                VTermValue::Str { v } => r is Some && r->0@ == v@,
                _ => r is None,
            },
    {
        match self {
            VTermValue::Str { v } => Some(v),
            _ => None,
        }
    }

    /// The color payload, if this value carries one.
    pub fn color(&self) -> (r: Option<PenColor>)
        ensures
            r == (match self {
                VTermValue::Color { v } => Some(*v),
                _ => None::<PenColor>,
            }),
    {
        match self {
            VTermValue::Color { v } => Some(*v),
            _ => None,
        }
    }
}

/// The value type each pen attribute takes.
pub fn vterm_get_attr_type(attr: VTermAttr) -> (r: VTermValueType)
    ensures
        r == (match attr {
            VTermAttr::Bold => VTermValueType::Bool,
            VTermAttr::Underline => VTermValueType::Int,
            VTermAttr::Italic => VTermValueType::Bool,
            VTermAttr::Blink => VTermValueType::Bool,
            VTermAttr::Reverse => VTermValueType::Bool,
            VTermAttr::Strike => VTermValueType::Bool,
            VTermAttr::Font => VTermValueType::Int,
            VTermAttr::Foreground => VTermValueType::Color,
            VTermAttr::Background => VTermValueType::Color,
        }),
{
    match attr {
        VTermAttr::Bold => VTermValueType::Bool,
        VTermAttr::Underline => VTermValueType::Int,
        VTermAttr::Italic => VTermValueType::Bool,
        VTermAttr::Blink => VTermValueType::Bool,
        VTermAttr::Reverse => VTermValueType::Bool,
        VTermAttr::Strike => VTermValueType::Bool,
        VTermAttr::Font => VTermValueType::Int,
        VTermAttr::Foreground => VTermValueType::Color,
        VTermAttr::Background => VTermValueType::Color,
    }
}

/// The value type each terminal property takes.
pub fn vterm_get_prop_type(prop: VTermProp) -> (r: VTermValueType)
    ensures
        r == (match prop {
            VTermProp::CursorVisible => VTermValueType::Bool,
            VTermProp::CursorBlink => VTermValueType::Bool,
            VTermProp::AltScreen => VTermValueType::Bool,
            VTermProp::Title => VTermValueType::Str,
            VTermProp::IconName => VTermValueType::Str,
            VTermProp::Reverse => VTermValueType::Bool,
            VTermProp::CursorShape => VTermValueType::Int,
            VTermProp::Mouse => VTermValueType::Int,
        }),
{
    match prop {
        VTermProp::CursorVisible => VTermValueType::Bool,
        VTermProp::CursorBlink => VTermValueType::Bool,
        VTermProp::AltScreen => VTermValueType::Bool,
        VTermProp::Title => VTermValueType::Str,
        VTermProp::IconName => VTermValueType::Str,
        VTermProp::Reverse => VTermValueType::Bool,
        VTermProp::CursorShape => VTermValueType::Int,
        VTermProp::Mouse => VTermValueType::Int,
    }
}

/// A channel value saturated to one byte.
pub open spec fn chan8(v: u32) -> u8 {
    if v <= 255 {
        v as u8
    } else {
        255
    }
}

/// The effect of the SGR parameters from index `i` on.  Parameters 38 and 48
/// consume their extended-color arguments (`5;index` or `2;r;g;b`, with `;`
/// or `:` separators alike); unrecognized parameters are ignored.
pub open spec fn sgr_from(p: VTermPen, ps: Seq<CsiParam>, i: int) -> VTermPen
    decreases ps.len() - i,
{
    if i < 0 || i >= ps.len() {
        p
    } else {
        let v = ps[i].value;
        if v == 0 {
            sgr_from(default_pen(), ps, i + 1)
        } else if v == 1 {
            sgr_from(VTermPen { bold: true, ..p }, ps, i + 1)
        } else if v == 3 {
            sgr_from(VTermPen { italic: true, ..p }, ps, i + 1)
        } else if v == 4 {
            sgr_from(VTermPen { underline: 1, ..p }, ps, i + 1)
        } else if v == 5 {
            sgr_from(VTermPen { blink: true, ..p }, ps, i + 1)
        } else if v == 7 {
            sgr_from(VTermPen { reverse: true, ..p }, ps, i + 1)
        } else if v == 9 {
            sgr_from(VTermPen { strike: true, ..p }, ps, i + 1)
        } else if 10 <= v <= 19 {
            sgr_from(VTermPen { font: (v - 10) as u8, ..p }, ps, i + 1)
        } else if v == 21 {
            sgr_from(VTermPen { underline: 2, ..p }, ps, i + 1)
        } else if v == 22 {
            sgr_from(VTermPen { bold: false, ..p }, ps, i + 1)
        } else if v == 23 {
            sgr_from(VTermPen { italic: false, ..p }, ps, i + 1)
        } else if v == 24 {
            sgr_from(VTermPen { underline: 0, ..p }, ps, i + 1)
        } else if v == 25 {
            sgr_from(VTermPen { blink: false, ..p }, ps, i + 1)
        } else if v == 27 {
            sgr_from(VTermPen { reverse: false, ..p }, ps, i + 1)
        } else if v == 29 {
            sgr_from(VTermPen { strike: false, ..p }, ps, i + 1)
        } else if 30 <= v <= 37 {
            sgr_from(VTermPen { fg: PenColor::Idx { idx: (v - 30) as u8 }, ..p }, ps, i + 1)
        } else if v == 39 {
            sgr_from(VTermPen { fg: PenColor::Default, ..p }, ps, i + 1)
        } else if 40 <= v <= 47 {
            sgr_from(VTermPen { bg: PenColor::Idx { idx: (v - 40) as u8 }, ..p }, ps, i + 1)
        } else if v == 49 {
            sgr_from(VTermPen { bg: PenColor::Default, ..p }, ps, i + 1)
        } else if 90 <= v <= 97 {
            sgr_from(VTermPen { fg: PenColor::Idx { idx: (v - 90 + 8) as u8 }, ..p }, ps, i + 1)
        } else if 100 <= v <= 107 {
            sgr_from(VTermPen { bg: PenColor::Idx { idx: (v - 100 + 8) as u8 }, ..p }, ps, i + 1)
        } else if v == 38 || v == 48 {
            if i + 2 < ps.len() && ps[i + 1].value == 5 {
                let c = PenColor::Idx { idx: chan8(ps[i + 2].value) };
                if v == 38 {
                    sgr_from(VTermPen { fg: c, ..p }, ps, i + 3)
                } else {
                    sgr_from(VTermPen { bg: c, ..p }, ps, i + 3)
                }
            } else if i + 4 < ps.len() && ps[i + 1].value == 2 {
                let c = PenColor::Rgb {
                    color: VTermColor {
                        red: chan8(ps[i + 2].value),
                        green: chan8(ps[i + 3].value),
                        blue: chan8(ps[i + 4].value),
                    },
                };
                if v == 38 {
                    sgr_from(VTermPen { fg: c, ..p }, ps, i + 5)
                } else {
                    sgr_from(VTermPen { bg: c, ..p }, ps, i + 5)
                }
            } else {
                sgr_from(p, ps, i + 1)
            }
        } else {
            sgr_from(p, ps, i + 1)
        }
    }
}

/// The pen after an SGR sequence with parameters `ps`.  A bare `CSI m`
/// carries no parameters and means reset.
pub open spec fn apply_sgr(p: VTermPen, ps: Seq<CsiParam>) -> VTermPen {
    if ps.len() == 0 {
        default_pen()
    } else {
        sgr_from(p, ps, 0)
    }
}

/// SGR preserves the pen bounds.
pub proof fn lemma_sgr_from_wf(p: VTermPen, ps: Seq<CsiParam>, i: int)
    requires
        pen_wf(p),
    ensures
        pen_wf(sgr_from(p, ps, i)),
    decreases ps.len() - i,
{
    if 0 <= i < ps.len() {
        let v = ps[i].value;
        if v == 0 {
            lemma_sgr_from_wf(default_pen(), ps, i + 1);
        } else if v == 38 || v == 48 {
            if i + 2 < ps.len() && ps[i + 1].value == 5 {
                let c = PenColor::Idx { idx: chan8(ps[i + 2].value) };
                if v == 38 {
                    lemma_sgr_from_wf(VTermPen { fg: c, ..p }, ps, i + 3);
                } else {
                    lemma_sgr_from_wf(VTermPen { bg: c, ..p }, ps, i + 3);
                }
            } else if i + 4 < ps.len() && ps[i + 1].value == 2 {
                let c = PenColor::Rgb {
                    color: VTermColor {
                        red: chan8(ps[i + 2].value),
                        green: chan8(ps[i + 3].value),
                        blue: chan8(ps[i + 4].value),
                    },
                };
                if v == 38 {
                    lemma_sgr_from_wf(VTermPen { fg: c, ..p }, ps, i + 5);
                } else {
                    lemma_sgr_from_wf(VTermPen { bg: c, ..p }, ps, i + 5);
                }
            } else {
                lemma_sgr_from_wf(p, ps, i + 1);
            }
        } else if v == 1 {
            lemma_sgr_from_wf(VTermPen { bold: true, ..p }, ps, i + 1);
        } else if v == 3 {
            lemma_sgr_from_wf(VTermPen { italic: true, ..p }, ps, i + 1);
        } else if v == 4 {
            lemma_sgr_from_wf(VTermPen { underline: 1, ..p }, ps, i + 1);
        } else if v == 5 {
            lemma_sgr_from_wf(VTermPen { blink: true, ..p }, ps, i + 1);
        } else if v == 7 {
            lemma_sgr_from_wf(VTermPen { reverse: true, ..p }, ps, i + 1);
        } else if v == 9 {
            lemma_sgr_from_wf(VTermPen { strike: true, ..p }, ps, i + 1);
        } else if 10 <= v <= 19 {
            lemma_sgr_from_wf(VTermPen { font: (v - 10) as u8, ..p }, ps, i + 1);
        } else if v == 21 {
            lemma_sgr_from_wf(VTermPen { underline: 2, ..p }, ps, i + 1);
        } else if v == 22 {
            lemma_sgr_from_wf(VTermPen { bold: false, ..p }, ps, i + 1);
        } else if v == 23 {
            lemma_sgr_from_wf(VTermPen { italic: false, ..p }, ps, i + 1);
        } else if v == 24 {
            lemma_sgr_from_wf(VTermPen { underline: 0, ..p }, ps, i + 1);
        } else if v == 25 {
            lemma_sgr_from_wf(VTermPen { blink: false, ..p }, ps, i + 1);
        } else if v == 27 {
            lemma_sgr_from_wf(VTermPen { reverse: false, ..p }, ps, i + 1);
        } else if v == 29 {
            lemma_sgr_from_wf(VTermPen { strike: false, ..p }, ps, i + 1);
        } else if 30 <= v <= 37 {
            lemma_sgr_from_wf(VTermPen { fg: PenColor::Idx { idx: (v - 30) as u8 }, ..p }, ps, i + 1);
        } else if v == 39 {
            lemma_sgr_from_wf(VTermPen { fg: PenColor::Default, ..p }, ps, i + 1);
        } else if 40 <= v <= 47 {
            lemma_sgr_from_wf(VTermPen { bg: PenColor::Idx { idx: (v - 40) as u8 }, ..p }, ps, i + 1);
        } else if v == 49 {
            lemma_sgr_from_wf(VTermPen { bg: PenColor::Default, ..p }, ps, i + 1);
        } else if 90 <= v <= 97 {
            lemma_sgr_from_wf(VTermPen { fg: PenColor::Idx { idx: (v - 90 + 8) as u8 }, ..p }, ps, i + 1);
        } else if 100 <= v <= 107 {
            lemma_sgr_from_wf(
                VTermPen { bg: PenColor::Idx { idx: (v - 100 + 8) as u8 }, ..p },
                ps,
                i + 1,
            );
        } else {
            lemma_sgr_from_wf(p, ps, i + 1);
        }
    }
}

pub proof fn lemma_apply_sgr_wf(p: VTermPen, ps: Seq<CsiParam>)
    requires
        pen_wf(p),
    ensures
        pen_wf(apply_sgr(p, ps)),
{
    if ps.len() != 0 {
        lemma_sgr_from_wf(p, ps, 0);
    }
}

/// SGR reset: parameter 0 yields the documented default pen whatever the pen
/// was before, so in particular applying it after any other sequence of
/// attribute changes ends at the default pen.
pub proof fn lemma_sgr_reset_to_default(p: VTermPen)
    ensures
        apply_sgr(p, seq![CsiParam { value: 0, more: false }]) == default_pen(),
{
    reveal_with_fuel(sgr_from, 2);
}

/// SGR reset is idempotent: applying reset twice in a row leaves the same
/// pen as applying it once, namely the default pen.
pub proof fn lemma_sgr_reset_idempotent(p: VTermPen)
    ensures
        apply_sgr(
            apply_sgr(p, seq![CsiParam { value: 0, more: false }]),
            seq![CsiParam { value: 0, more: false }],
        ) == apply_sgr(p, seq![CsiParam { value: 0, more: false }]),
{
    lemma_sgr_reset_to_default(p);
    lemma_sgr_reset_to_default(default_pen());
}

/// Applies an SGR parameter list to a pen: implements [`apply_sgr`].
pub fn pen_apply_sgr(p: VTermPen, params: &Vec<CsiParam>) -> (r: VTermPen)
    ensures
        r == apply_sgr(p, params@),
        pen_wf(p) ==> pen_wf(r),
{
    proof {
        if pen_wf(p) {
            lemma_apply_sgr_wf(p, params@);
        }
    }
    if params.len() == 0 {
        return VTermPen::default();
    }
    let ghost ps = params@;
    let mut pen = p;
    let mut i: usize = 0;
    while i < params.len()
        invariant
            i <= params@.len(),
            ps == params@,
            apply_sgr(p, params@) == sgr_from(pen, params@, i as int),
        decreases params@.len() - i,
    {
        let v = params[i].value;
        if v == 0 {
            pen = VTermPen::default();
            i = i + 1;
        } else if v == 1 {
            pen = VTermPen { bold: true, ..pen };
            i = i + 1;
        } else if v == 3 {
            pen = VTermPen { italic: true, ..pen };
            i = i + 1;
        } else if v == 4 {
            pen = VTermPen { underline: 1, ..pen };
            i = i + 1;
        } else if v == 5 {
            pen = VTermPen { blink: true, ..pen };
            i = i + 1;
        } else if v == 7 {
            pen = VTermPen { reverse: true, ..pen };
            i = i + 1;
        } else if v == 9 {
            pen = VTermPen { strike: true, ..pen };
            i = i + 1;
        } else if 10 <= v && v <= 19 {
            pen = VTermPen { font: (v - 10) as u8, ..pen };
            i = i + 1;
        } else if v == 21 {
            pen = VTermPen { underline: 2, ..pen };
            i = i + 1;
        } else if v == 22 {
            pen = VTermPen { bold: false, ..pen };
            i = i + 1;
        } else if v == 23 {
            pen = VTermPen { italic: false, ..pen };
            i = i + 1;
        } else if v == 24 {
            pen = VTermPen { underline: 0, ..pen };
            i = i + 1;
        } else if v == 25 {
            pen = VTermPen { blink: false, ..pen };
            i = i + 1;
        } else if v == 27 {
            pen = VTermPen { reverse: false, ..pen };
            i = i + 1;
        } else if v == 29 {
            pen = VTermPen { strike: false, ..pen };
            i = i + 1;
        } else if 30 <= v && v <= 37 {
            pen = VTermPen { fg: PenColor::Idx { idx: (v - 30) as u8 }, ..pen };
            i = i + 1;
        } else if v == 39 {
            pen = VTermPen { fg: PenColor::Default, ..pen };
            i = i + 1;
        } else if 40 <= v && v <= 47 {
            pen = VTermPen { bg: PenColor::Idx { idx: (v - 40) as u8 }, ..pen };
            i = i + 1;
        } else if v == 49 {
            pen = VTermPen { bg: PenColor::Default, ..pen };
            i = i + 1;
        } else if 90 <= v && v <= 97 {
            pen = VTermPen { fg: PenColor::Idx { idx: (v - 90 + 8) as u8 }, ..pen };
            i = i + 1;
        } else if 100 <= v && v <= 107 {
            pen = VTermPen { bg: PenColor::Idx { idx: (v - 100 + 8) as u8 }, ..pen };
            i = i + 1;
        } else if v == 38 || v == 48 {
            if params.len() - i > 2 && params[i + 1].value == 5 {
                let idx = chan8_exec(params[i + 2].value);
                let c = PenColor::Idx { idx };
                if v == 38 {
                    pen = VTermPen { fg: c, ..pen };
                } else {
                    pen = VTermPen { bg: c, ..pen };
                }
                i = i + 3;
            } else if params.len() - i > 4 && params[i + 1].value == 2 {
                let c = PenColor::Rgb {
                    color: VTermColor {
                        red: chan8_exec(params[i + 2].value),
                        green: chan8_exec(params[i + 3].value),
                        blue: chan8_exec(params[i + 4].value),
                    },
                };
                if v == 38 {
                    pen = VTermPen { fg: c, ..pen };
                } else {
                    pen = VTermPen { bg: c, ..pen };
                }
                i = i + 5;
            } else {
                i = i + 1;
            }
        } else {
            i = i + 1;
        }
    }
    pen
}

fn chan8_exec(v: u32) -> (r: u8)
    ensures
        r == chan8(v),
{
    if v <= 255 {
        v as u8
    } else {
        255
    }
}

/// Reads one pen attribute out of a pen as a tagged value.
pub fn pen_get_attr(p: &VTermPen, attr: VTermAttr) -> (r: VTermValue)
    ensures
        r == (match attr {
            VTermAttr::Bold => VTermValue::Bool { v: p.bold },
            VTermAttr::Underline => VTermValue::Int { v: p.underline as i32 },
            VTermAttr::Italic => VTermValue::Bool { v: p.italic },
            VTermAttr::Blink => VTermValue::Bool { v: p.blink },
            VTermAttr::Reverse => VTermValue::Bool { v: p.reverse },
            VTermAttr::Strike => VTermValue::Bool { v: p.strike },
            VTermAttr::Font => VTermValue::Int { v: p.font as i32 },
            VTermAttr::Foreground => VTermValue::Color { v: p.fg },
            VTermAttr::Background => VTermValue::Color { v: p.bg },
        }),
{
    match attr {
        VTermAttr::Bold => VTermValue::Bool { v: p.bold },
        VTermAttr::Underline => VTermValue::Int { v: p.underline as i32 },
        VTermAttr::Italic => VTermValue::Bool { v: p.italic },
        VTermAttr::Blink => VTermValue::Bool { v: p.blink },
        VTermAttr::Reverse => VTermValue::Bool { v: p.reverse },
        VTermAttr::Strike => VTermValue::Bool { v: p.strike },
        VTermAttr::Font => VTermValue::Int { v: p.font as i32 },
        VTermAttr::Foreground => VTermValue::Color { v: p.fg },
        VTermAttr::Background => VTermValue::Color { v: p.bg },
    }
}

} // verus!
