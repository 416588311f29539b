//! The terminal-control structures the payload hands to the kernel, with an
//! explicit, order-preserving byte layout: every field is serialized
//! little-endian at a documented offset, so the layout is a checked contract
//! rather than a representation coincidence.
//!
//! `Winsize` is 8 bytes: rows, cols, xpixel, ypixel, each 16 bits.
//! `Termios` is 60 bytes: four 32-bit mode words, the line discipline byte,
//! 32 control-character bytes, three zero padding bytes, and two 32-bit
//! speed words.
use vstd::prelude::*;
use vstd::bytes::{
    lemma_auto_spec_u16_to_from_le_bytes,
    lemma_auto_spec_u32_to_from_le_bytes,
    spec_u16_from_le_bytes,
    spec_u16_to_le_bytes,
    spec_u32_from_le_bytes,
    spec_u32_to_le_bytes,
    u16_from_le_bytes,
    u16_to_le_bytes,
    u32_from_le_bytes,
    u32_to_le_bytes,
};
use crate::bytes;

verus! {

/// Kernel request: read the terminal attributes.
pub const TCGETS: usize = 0x5401;

/// Kernel request: set the terminal attributes now.
pub const TCSETS: usize = 0x5402;

/// Kernel request: set the terminal attributes after draining output.
pub const TCSETSW: usize = 0x5403;

/// Kernel request: set the terminal attributes after flushing.
pub const TCSETSF: usize = 0x5404;

/// Kernel request: read the window size.
pub const TIOCGWINSZ: usize = 0x5413;

/// Local mode: echo input.
pub const ECHO: u32 = 0o000010;

/// Local mode: canonical (line-buffered) input.
pub const ICANON: u32 = 0o000002;

/// Local mode: signal-generating keys.
pub const ISIG: u32 = 0o000001;

/// Local mode: extended input processing.
pub const IEXTEN: u32 = 0o100000;

/// Input mode: break generates an interrupt.
pub const BRKINT: u32 = 0o000002;

/// Input mode: map CR to NL.
pub const ICRNL: u32 = 0o000400;

/// Input mode: parity checking.
pub const INPCK: u32 = 0o000020;

/// Input mode: strip the eighth bit.
pub const ISTRIP: u32 = 0o000040;

/// Input mode: output flow control.
pub const IXON: u32 = 0o002000;

/// Output mode: output post-processing.
pub const OPOST: u32 = 0o000001;

/// Control mode: eight-bit characters.
pub const CS8: u32 = 0o000060;

/// Control-character slot: minimum bytes per read.
pub const VMIN: usize = 6;

/// Control-character slot: read timeout.
pub const VTIME: usize = 5;

/// The window-size structure, 8 bytes.
#[derive(Copy, Clone)]
pub struct Winsize {
    pub rows: u16,
    pub cols: u16,
    pub xpixel: u16,
    pub ypixel: u16,
}

impl Winsize {
    /// An all-zero window size.
    pub fn new() -> (r: Self)
        ensures
            r.rows == 0,
            r.cols == 0,
            r.xpixel == 0,
            r.ypixel == 0,
    {
        Self { rows: 0, cols: 0, xpixel: 0, ypixel: 0 }
    }

    /// The byte image: each field little-endian, in declaration order.
    pub open spec fn spec_bytes(self) -> Seq<u8> {
        spec_u16_to_le_bytes(self.rows) + spec_u16_to_le_bytes(self.cols) + spec_u16_to_le_bytes(
            self.xpixel,
        ) + spec_u16_to_le_bytes(self.ypixel)
    }

    /// The structure read back from a byte image.
    pub open spec fn spec_of_bytes(b: Seq<u8>) -> Winsize {
        Winsize {
            rows: spec_u16_from_le_bytes(b.subrange(0, 2)),
            cols: spec_u16_from_le_bytes(b.subrange(2, 4)),
            xpixel: spec_u16_from_le_bytes(b.subrange(4, 6)),
            ypixel: spec_u16_from_le_bytes(b.subrange(6, 8)),
        }
    }

    /// Serializes the structure into its 8-byte image.
    pub fn as_bytes(&self) -> (r: Vec<u8>)
        ensures
            r@ == self.spec_bytes(),
            r@.len() == 8,
    {
        proof {
            lemma_auto_spec_u16_to_from_le_bytes();
        }
        let mut r = u16_to_le_bytes(self.rows);
        let mut t = u16_to_le_bytes(self.cols);
        r.append(&mut t);
        let mut t = u16_to_le_bytes(self.xpixel);
        r.append(&mut t);
        let mut t = u16_to_le_bytes(self.ypixel);
        r.append(&mut t);
        r
    }

    /// Deserializes a structure from its 8-byte image.
    pub fn from_bytes(b: &[u8]) -> (r: Self)
        requires
            b@.len() == 8,
        ensures
            r == Self::spec_of_bytes(b@),
    {
        Self {
            rows: u16_from_le_bytes(&b[0..2]),
            cols: u16_from_le_bytes(&b[2..4]),
            xpixel: u16_from_le_bytes(&b[4..6]),
            ypixel: u16_from_le_bytes(&b[6..8]),
        }
    }
}

/// Serialization round trip: reading back the byte image of a window size
/// gives the same structure, so the layout loses nothing.
pub proof fn lemma_winsize_round_trip(w: Winsize)
    ensures
        Winsize::spec_of_bytes(w.spec_bytes()) == w,
{
    lemma_auto_spec_u16_to_from_le_bytes();
    let b = w.spec_bytes();
    assert(b.subrange(0, 2) =~= spec_u16_to_le_bytes(w.rows));
    assert(b.subrange(2, 4) =~= spec_u16_to_le_bytes(w.cols));
    assert(b.subrange(4, 6) =~= spec_u16_to_le_bytes(w.xpixel));
    assert(b.subrange(6, 8) =~= spec_u16_to_le_bytes(w.ypixel));
}

/// The terminal-attributes structure, 60 bytes.
pub struct Termios {
    /// Input modes.
    pub iflag: u32,
    /// Output modes.
    pub oflag: u32,
    /// Control modes.
    pub cflag: u32,
    /// Local modes.
    pub lflag: u32,
    /// Line discipline.
    pub line: u8,
    /// Control characters; always 32 slots.
    pub cc: Vec<u8>,
    /// Input speed.
    pub ispeed: u32,
    /// Output speed.
    pub ospeed: u32,
}

/// Mathematical form of the terminal attributes.
#[verifier::ext_equal]
pub ghost struct TermiosModel {
    pub iflag: u32,
    pub oflag: u32,
    pub cflag: u32,
    pub lflag: u32,
    pub line: u8,
    pub cc: Seq<u8>,
    pub ispeed: u32,
    pub ospeed: u32,
}

impl View for Termios {
    type V = TermiosModel;

    open spec fn view(&self) -> TermiosModel {
        TermiosModel {
            iflag: self.iflag,
            oflag: self.oflag,
            cflag: self.cflag,
            lflag: self.lflag,
            line: self.line,
            cc: self.cc@,
            ispeed: self.ispeed,
            ospeed: self.ospeed,
        }
    }
}

/// Well-formedness: the control-character table has its 32 slots.
pub open spec fn termios_wf(m: TermiosModel) -> bool {
    m.cc.len() == 32
}

/// The byte image of the terminal attributes: the four mode words
/// little-endian at offsets 0, 4, 8 and 12, the line discipline at 16, the
/// control characters at 17 through 48, three zero padding bytes, and the
/// two speed words at 52 and 56.
pub open spec fn termios_bytes(m: TermiosModel) -> Seq<u8> {
    spec_u32_to_le_bytes(m.iflag) + spec_u32_to_le_bytes(m.oflag) + spec_u32_to_le_bytes(m.cflag)
        + spec_u32_to_le_bytes(m.lflag) + seq![m.line] + m.cc + seq![0u8, 0u8, 0u8]
        + spec_u32_to_le_bytes(m.ispeed) + spec_u32_to_le_bytes(m.ospeed)
}

/// The terminal attributes read back from a 60-byte image.
pub open spec fn termios_of_bytes(b: Seq<u8>) -> TermiosModel {
    TermiosModel {
        iflag: spec_u32_from_le_bytes(b.subrange(0, 4)),
        oflag: spec_u32_from_le_bytes(b.subrange(4, 8)),
        cflag: spec_u32_from_le_bytes(b.subrange(8, 12)),
        lflag: spec_u32_from_le_bytes(b.subrange(12, 16)),
        line: b[16],
        cc: b.subrange(17, 49),
        ispeed: spec_u32_from_le_bytes(b.subrange(52, 56)),
        ospeed: spec_u32_from_le_bytes(b.subrange(56, 60)),
    }
}

impl Termios {
    /// An all-zero set of terminal attributes.
    pub fn new() -> (r: Self)
        ensures
            r.iflag == 0,
            r.oflag == 0,
            r.cflag == 0,
            r.lflag == 0,
            r.line == 0,
            r.cc@.len() == 32,
            forall|i: int| 0 <= i < 32 ==> r.cc@[i] == 0,
            r.ispeed == 0,
            r.ospeed == 0,
            termios_wf(r@),
    {
        Self {
            iflag: 0,
            oflag: 0,
            cflag: 0,
            lflag: 0,
            line: 0,
            cc: bytes::zeroes(32),
            ispeed: 0,
            ospeed: 0,
        }
    }

    /// Serializes the structure into its 60-byte image.
    pub fn as_bytes(&self) -> (r: Vec<u8>)
        requires
            termios_wf(self@),
        ensures
            r@ == termios_bytes(self@),
            r@.len() == 60,
    {
        proof {
            lemma_auto_spec_u32_to_from_le_bytes();
        }
        let mut r = u32_to_le_bytes(self.iflag);
        let mut t = u32_to_le_bytes(self.oflag);
        r.append(&mut t);
        let mut t = u32_to_le_bytes(self.cflag);
        r.append(&mut t);
        let mut t = u32_to_le_bytes(self.lflag);
        r.append(&mut t);
        r.push(self.line);
        r.extend_from_slice(self.cc.as_slice());
        r.push(0);
        r.push(0);
        r.push(0);
        let mut t = u32_to_le_bytes(self.ispeed);
        r.append(&mut t);
        let mut t = u32_to_le_bytes(self.ospeed);
        r.append(&mut t);
        proof {
            assert(r@ =~= termios_bytes(self@));
        }
        r
    }

    /// Deserializes a structure from its 60-byte image.
    pub fn from_bytes(b: &[u8]) -> (r: Self)
        requires
            b@.len() == 60,
        ensures
            r@ == termios_of_bytes(b@),
            termios_wf(r@),
    {
        let mut cc: Vec<u8> = Vec::new();
        cc.extend_from_slice(&b[17..49]);
        let r = Self {
            iflag: u32_from_le_bytes(&b[0..4]),
            oflag: u32_from_le_bytes(&b[4..8]),
            cflag: u32_from_le_bytes(&b[8..12]),
            lflag: u32_from_le_bytes(&b[12..16]),
            line: b[16],
            cc,
            ispeed: u32_from_le_bytes(&b[52..56]),
            ospeed: u32_from_le_bytes(&b[56..60]),
        };
        proof {
            assert(r@ =~= termios_of_bytes(b@));
        }
        r
    }
}

/// Serialization round trip: reading back the byte image of well-formed
/// terminal attributes gives the same attributes.
pub proof fn lemma_termios_round_trip(m: TermiosModel)
    requires
        termios_wf(m),
    ensures
        termios_of_bytes(termios_bytes(m)) == m,
{
    lemma_auto_spec_u32_to_from_le_bytes();
    let b = termios_bytes(m);
    assert(b.subrange(0, 4) =~= spec_u32_to_le_bytes(m.iflag));
    assert(b.subrange(4, 8) =~= spec_u32_to_le_bytes(m.oflag));
    assert(b.subrange(8, 12) =~= spec_u32_to_le_bytes(m.cflag));
    assert(b.subrange(12, 16) =~= spec_u32_to_le_bytes(m.lflag));
    assert(b[16] == m.line);
    assert(b.subrange(17, 49) =~= m.cc);
    assert(b.subrange(52, 56) =~= spec_u32_to_le_bytes(m.ispeed));
    assert(b.subrange(56, 60) =~= spec_u32_to_le_bytes(m.ospeed));
    assert(termios_of_bytes(b) =~= m);
}

} // verus!
