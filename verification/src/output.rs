//! The bounded output buffer holding application replies (cursor-position
//! reports, encoded keyboard and mouse input), and the byte encodings
//! themselves.

use vstd::prelude::*;

verus! {

/// Decimal digits of `n`, most significant first.
pub open spec fn dec_bytes(n: u32) -> Seq<u8>
    decreases n,
{
    if n < 10 {
        seq![(0x30 + n) as u8]
    } else {
        dec_bytes(n / 10).push((0x30 + n % 10) as u8)
    }
}

/// Writes `n` in decimal, most significant digit first.
pub fn u32_dec(n: u32) -> (r: Vec<u8>)
    ensures
        r@ == dec_bytes(n),
        r@.len() >= 1,
    decreases n,
{
    if n < 10 {
        let mut v: Vec<u8> = Vec::new();
        v.push(0x30 + n as u8);
        proof {
            assert(v@ =~= dec_bytes(n));
        }
        v
    } else {
        let mut v = u32_dec(n / 10);
        v.push(0x30 + (n % 10) as u8);
        v
    }
}

/// A bounded output buffer.  A reply that does not fit in the remaining
/// capacity is dropped whole, so the buffer never holds a truncated
/// sequence.
pub struct OutputBuffer {
    buf: Vec<u8>,
    cap: usize,
}

impl View for OutputBuffer {
    type V = Seq<u8>;

    closed spec fn view(&self) -> Seq<u8> {
        self.buf@
    }
}

impl OutputBuffer {
    pub closed spec fn cap_spec(&self) -> int {
        self.cap as int
    }

    pub open spec fn wf(&self) -> bool {
        self@.len() <= self.cap_spec()
    }

    pub fn new(cap: usize) -> (r: OutputBuffer)
        ensures
            r@ == Seq::<u8>::empty(),
            r.cap_spec() == cap,
            r.wf(),
    {
        OutputBuffer { buf: Vec::new(), cap }
    }

    /// Total capacity of the buffer.
    pub fn buffer_size(&self) -> (r: usize)
        ensures
            r == self.cap_spec(),
    {
        self.cap
    }

    /// Bytes currently queued.
    pub fn buffer_current(&self) -> (r: usize)
        ensures
            r == self@.len(),
    {
        self.buf.len()
    }

    /// Remaining capacity.
    pub fn buffer_remaining(&self) -> (r: usize)
        requires
            self.wf(),
        ensures
            r == self.cap_spec() - self@.len(),
    {
        self.cap - self.buf.len()
    }

    /// Appends a whole reply if it fits, else drops it and reports false.
    pub fn push_reply(&mut self, bytes: &Vec<u8>) -> (ok: bool)
        requires
            old(self).wf(),
        ensures
            final(self).wf(),
            final(self).cap_spec() == old(self).cap_spec(),
            ok == (old(self)@.len() + bytes@.len() <= old(self).cap_spec()),
            ok ==> final(self)@ == old(self)@ + bytes@,
            !ok ==> final(self)@ == old(self)@,
    {
        if bytes.len() <= self.cap - self.buf.len() {
            let mut i: usize = 0;
            while i < bytes.len()
                invariant
                    i <= bytes@.len(),
                    self.buf@ == old(self)@ + bytes@.take(i as int),
                    self.cap == old(self).cap_spec(),
                    self.buf@.len() <= self.cap,
                    old(self)@.len() + bytes@.len() <= self.cap,
                decreases bytes@.len() - i,
            {
                self.buf.push(bytes[i]);
                i = i + 1;
                proof {
                    assert(old(self)@ + bytes@.take(i as int) =~= (old(self)@ + bytes@.take(
                        i - 1,
                    )).push(bytes@[i - 1]));
                }
            }
            proof {
                assert(bytes@.take(bytes@.len() as int) =~= bytes@);
            }
            true
        } else {
            proof {
                assert(self.buf@ =~= old(self)@);
            }
            false
        }
    }

    /// Reads and drains up to `len` bytes from the front of the buffer.
    pub fn read(&mut self, len: usize) -> (r: Vec<u8>)
        requires
            old(self).wf(),
        ensures
            final(self).wf(),
            final(self).cap_spec() == old(self).cap_spec(),
            r@ == old(self)@.take(min_spec(len as int, old(self)@.len() as int)),
            final(self)@ == old(self)@.skip(min_spec(len as int, old(self)@.len() as int)),
    {
        let n = if len <= self.buf.len() {
            len
        } else {
            self.buf.len()
        };
        let mut out: Vec<u8> = Vec::new();
        let mut i: usize = 0;
        while i < n
            invariant
                i <= n,
                n <= self.buf@.len(),
                self.buf@ == old(self)@,
                out@ == old(self)@.take(i as int),
            decreases n - i,
        {
            out.push(self.buf[i]);
            i = i + 1;
            proof {
                assert(old(self)@.take(i as int) =~= old(self)@.take(i - 1).push(
                    old(self)@[i - 1],
                ));
            }
        }
        let mut rest: Vec<u8> = Vec::new();
        let mut j: usize = n;
        while j < self.buf.len()
            invariant
                n <= j <= self.buf@.len(),
                self.buf@ == old(self)@,
                rest@ == old(self)@.subrange(n as int, j as int),
            decreases self.buf@.len() - j,
        {
            rest.push(self.buf[j]);
            j = j + 1;
            proof {
                assert(old(self)@.subrange(n as int, j as int) =~= old(self)@.subrange(
                    n as int,
                    j - 1,
                ).push(old(self)@[j - 1]));
            }
        }
        self.buf = rest;
        proof {
            assert(self.buf@ =~= old(self)@.skip(n as int));
            assert(out@ =~= old(self)@.take(n as int));
        }
        out
    }
}

pub open spec fn min_spec(a: int, b: int) -> int {
    if a < b {
        a
    } else {
        b
    }
}

/// Keyboard modifier flags.
#[derive(Clone, Copy, PartialEq, Eq, Structural, Debug)]
pub struct VTermModifier {
    pub shift: bool,
    pub alt: bool,
    pub ctrl: bool,
}

pub open spec fn no_modifier() -> VTermModifier {
    VTermModifier { shift: false, alt: false, ctrl: false }
}

/// A non-character key.
#[derive(Clone, Copy, PartialEq, Eq, Structural, Debug)]
pub enum VTermKey {
    Enter,
    Tab,
    Backspace,
    Escape,
    Up,
    Down,
    Left,
    Right,
    Insert,
    Delete,
    Home,
    End,
    PageUp,
    PageDown,
    Function { num: u8 },
}

/// UTF-8 encoding of a codepoint (values above the Unicode range are
/// encoded by the same arithmetic in four bytes).
pub open spec fn utf8_bytes(ch: u32) -> Seq<u8> {
    if ch < 0x80 {
        seq![ch as u8]
    } else if ch < 0x800 {
        seq![(0xc0 + ch / 0x40) as u8, (0x80 + ch % 0x40) as u8]
    } else if ch < 0x10000 {
        seq![
            (0xe0 + ch / 0x1000) as u8,
            (0x80 + (ch / 0x40) % 0x40) as u8,
            (0x80 + ch % 0x40) as u8,
        ]
    } else {
        seq![
            (0xf0 + (ch / 0x40000) % 8) as u8,
            (0x80 + (ch / 0x1000) % 0x40) as u8,
            (0x80 + (ch / 0x40) % 0x40) as u8,
            (0x80 + ch % 0x40) as u8,
        ]
    }
}

/// Encodes one codepoint as UTF-8.
pub fn utf8_encode(ch: u32) -> (r: Vec<u8>)
    ensures
        r@ == utf8_bytes(ch),
{
    let mut v: Vec<u8> = Vec::new();
    if ch < 0x80 {
        v.push(ch as u8);
    } else if ch < 0x800 {
        v.push(0xc0 + (ch / 0x40) as u8);
        v.push(0x80 + (ch % 0x40) as u8);
    } else if ch < 0x10000 {
        v.push(0xe0 + (ch / 0x1000) as u8);
        v.push(0x80 + ((ch / 0x40) % 0x40) as u8);
        v.push(0x80 + (ch % 0x40) as u8);
    } else {
        v.push(0xf0 + ((ch / 0x40000) % 8) as u8);
        v.push(0x80 + ((ch / 0x1000) % 0x40) as u8);
        v.push(0x80 + ((ch / 0x40) % 0x40) as u8);
        v.push(0x80 + (ch % 0x40) as u8);
    }
    proof {
        assert(v@ =~= utf8_bytes(ch));
    }
    v
}

/// The byte sequence a keypress sends to the application.
pub open spec fn key_bytes(key: VTermKey) -> Seq<u8> {
    match key {
        VTermKey::Enter => seq![0x0du8],
        VTermKey::Tab => seq![0x09u8],
        VTermKey::Backspace => seq![0x7fu8],
        VTermKey::Escape => seq![0x1bu8],
        VTermKey::Up => seq![0x1bu8, 0x5b, 0x41],
        VTermKey::Down => seq![0x1bu8, 0x5b, 0x42],
        VTermKey::Right => seq![0x1bu8, 0x5b, 0x43],
        VTermKey::Left => seq![0x1bu8, 0x5b, 0x44],
        VTermKey::Home => seq![0x1bu8, 0x5b, 0x48],
        VTermKey::End => seq![0x1bu8, 0x5b, 0x46],
        VTermKey::Insert => seq![0x1bu8, 0x5b, 0x32, 0x7e],
        VTermKey::Delete => seq![0x1bu8, 0x5b, 0x33, 0x7e],
        VTermKey::PageUp => seq![0x1bu8, 0x5b, 0x35, 0x7e],
        VTermKey::PageDown => seq![0x1bu8, 0x5b, 0x36, 0x7e],
        VTermKey::Function { num } => if num == 1 {
            seq![0x1bu8, 0x4f, 0x50]
        } else if num == 2 {
            seq![0x1bu8, 0x4f, 0x51]
        } else if num == 3 {
            seq![0x1bu8, 0x4f, 0x52]
        } else if num == 4 {
            seq![0x1bu8, 0x4f, 0x53]
        } else {
            Seq::empty()
        },
    }
}

/// Encodes a keypress.  Alt prefixes ESC; Ctrl maps letters and a few
/// punctuation characters onto C0 bytes (applied by [`unichar_bytes`], not
/// here, since it concerns character keys only).
pub fn encode_key(key: VTermKey, modifier: VTermModifier) -> (r: Vec<u8>)
    ensures
        r@ == if modifier.alt && key_bytes(key).len() > 0 {
            seq![0x1bu8] + key_bytes(key)
        } else {
            key_bytes(key)
        },
{
    let mut base: Vec<u8> = Vec::new();
    match key {
        VTermKey::Enter => {
            base.push(0x0d);
        },
        VTermKey::Tab => {
            base.push(0x09);
        },
        VTermKey::Backspace => {
            base.push(0x7f);
        },
        VTermKey::Escape => {
            base.push(0x1b);
        },
        VTermKey::Up => {
            base.push(0x1b);
            base.push(0x5b);
            base.push(0x41);
        },
        VTermKey::Down => {
            base.push(0x1b);
            base.push(0x5b);
            base.push(0x42);
        },
        VTermKey::Right => {
            base.push(0x1b);
            base.push(0x5b);
            base.push(0x43);
        },
        VTermKey::Left => {
            base.push(0x1b);
            base.push(0x5b);
            base.push(0x44);
        },
        VTermKey::Home => {
            base.push(0x1b);
            base.push(0x5b);
            base.push(0x48);
        },
        VTermKey::End => {
            base.push(0x1b);
            base.push(0x5b);
            base.push(0x46);
        },
        VTermKey::Insert => {
            base.push(0x1b);
            base.push(0x5b);
            base.push(0x32);
            base.push(0x7e);
        },
        VTermKey::Delete => {
            base.push(0x1b);
            base.push(0x5b);
            base.push(0x33);
            base.push(0x7e);
        },
        VTermKey::PageUp => {
            base.push(0x1b);
            base.push(0x5b);
            base.push(0x35);
            base.push(0x7e);
        },
        VTermKey::PageDown => {
            base.push(0x1b);
            base.push(0x5b);
            base.push(0x36);
            base.push(0x7e);
        },
        VTermKey::Function { num } => {
            if num == 1 {
                base.push(0x1b);
                base.push(0x4f);
                base.push(0x50);
            } else if num == 2 {
                base.push(0x1b);
                base.push(0x4f);
                base.push(0x51);
            } else if num == 3 {
                base.push(0x1b);
                base.push(0x4f);
                base.push(0x52);
            } else if num == 4 {
                base.push(0x1b);
                base.push(0x4f);
                base.push(0x53);
            }
        },
    }
    proof {
        assert(base@ =~= key_bytes(key));
    }
    if modifier.alt && base.len() > 0 {
        let mut out: Vec<u8> = Vec::new();
        out.push(0x1b);
        let mut i: usize = 0;
        while i < base.len()
            invariant
                i <= base@.len(),
                out@ == seq![0x1bu8] + base@.take(i as int),
            decreases base@.len() - i,
        {
            out.push(base[i]);
            i = i + 1;
            proof {
                assert(seq![0x1bu8] + base@.take(i as int) =~= (seq![0x1bu8] + base@.take(i - 1)).push(
                    base@[i - 1],
                ));
            }
        }
        proof {
            assert(base@.take(base@.len() as int) =~= base@);
        }
        out
    } else {
        base
    }
}

/// The byte sequence a character keypress sends: Ctrl with a letter (or a
/// handful of punctuation characters) sends the matching C0 byte, Alt
/// prefixes ESC, anything else is the character's UTF-8 encoding.
pub open spec fn unichar_bytes(ch: u32, modifier: VTermModifier) -> Seq<u8> {
    let base = if modifier.ctrl && 0x40 <= ch <= 0x7f {
        seq![(ch % 0x20) as u8]
    } else {
        utf8_bytes(ch)
    };
    if modifier.alt {
        seq![0x1bu8] + base
    } else {
        base
    }
}

/// Encodes a character keypress.
pub fn encode_unichar(ch: u32, modifier: VTermModifier) -> (r: Vec<u8>)
    ensures
        r@ == unichar_bytes(ch, modifier),
{
    let base: Vec<u8> = if modifier.ctrl && 0x40 <= ch && ch <= 0x7f {
        let mut v: Vec<u8> = Vec::new();
        v.push((ch % 0x20) as u8);
        proof {
            assert(v@ =~= seq![(ch % 0x20) as u8]);
        }
        v
    } else {
        utf8_encode(ch)
    };
    if modifier.alt {
        let mut out: Vec<u8> = Vec::new();
        out.push(0x1b);
        let mut i: usize = 0;
        while i < base.len()
            invariant
                i <= base@.len(),
                out@ == seq![0x1bu8] + base@.take(i as int),
            decreases base@.len() - i,
        {
            out.push(base[i]);
            i = i + 1;
            proof {
                assert(seq![0x1bu8] + base@.take(i as int) =~= (seq![0x1bu8] + base@.take(i - 1)).push(
                    base@[i - 1],
                ));
            }
        }
        proof {
            assert(base@.take(base@.len() as int) =~= base@);
        }
        out
    } else {
        base
    }
}

/// The SGR-encoded mouse report `ESC [ < b ; x ; y M` (press) or `m`
/// (release), with 1-based coordinates.
pub open spec fn mouse_bytes(button: u32, pressed: bool, row: u32, col: u32) -> Seq<u8> {
    seq![0x1bu8, 0x5b, 0x3c] + dec_bytes(button) + seq![0x3bu8] + dec_bytes(
        (col + 1) as u32,
    ) + seq![0x3bu8] + dec_bytes((row + 1) as u32) + seq![if pressed {
        0x4du8
    } else {
        0x6du8
    }]
}

/// Encodes a mouse event in SGR form.
pub fn encode_mouse(button: u32, pressed: bool, row: u32, col: u32) -> (r: Vec<u8>)
    requires
        row < 0xffff,
        col < 0xffff,
    ensures
        r@ == mouse_bytes(button, pressed, row, col),
{
    let mut out: Vec<u8> = Vec::new();
    out.push(0x1b);
    out.push(0x5b);
    out.push(0x3c);
    let mut b = u32_dec(button);
    out.append(&mut b);
    out.push(0x3b);
    let mut x = u32_dec(col + 1);
    out.append(&mut x);
    out.push(0x3b);
    let mut y = u32_dec(row + 1);
    out.append(&mut y);
    if pressed {
        out.push(0x4d);
    } else {
        out.push(0x6d);
    }
    proof {
        assert(out@ =~= mouse_bytes(button, pressed, row, col));
    }
    out
}

} // verus!
