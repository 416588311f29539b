//! Terminal handling for the payload program: switching a set of terminal
//! attributes into raw mode, and writing decimal numbers to the terminal.
use vstd::prelude::*;
use crate::syscall::puts;
use crate::termios::{
    Termios,
    termios_wf,
    BRKINT,
    CS8,
    ECHO,
    ICANON,
    ICRNL,
    IEXTEN,
    INPCK,
    ISIG,
    ISTRIP,
    IXON,
    OPOST,
    VMIN,
    VTIME,
};

verus! {

/// Switches the attributes into raw mode: break, CR translation, parity,
/// stripping and flow control off; output post-processing off; eight-bit
/// characters on; echo, canonical input, signals and extended processing
/// off; reads return after one byte with no timeout.  Nothing else changes.
pub fn set_raw_mode(termios: &mut Termios)
    requires
        termios_wf(old(termios)@),
    ensures
        termios_wf(final(termios)@),
        final(termios).iflag == old(termios).iflag & !(BRKINT | ICRNL | INPCK | ISTRIP | IXON),
        final(termios).oflag == old(termios).oflag & !OPOST,
        final(termios).cflag == old(termios).cflag | CS8,
        final(termios).lflag == old(termios).lflag & !(ECHO | ICANON | ISIG | IEXTEN),
        final(termios).line == old(termios).line,
        final(termios).cc@ == old(termios).cc@.update(VMIN as int, 1u8).update(VTIME as int, 0u8),
        final(termios).ispeed == old(termios).ispeed,
        final(termios).ospeed == old(termios).ospeed,
{
    termios.iflag = termios.iflag & !(BRKINT | ICRNL | INPCK | ISTRIP | IXON);
    termios.oflag = termios.oflag & !OPOST;
    termios.cflag = termios.cflag | CS8;
    termios.lflag = termios.lflag & !(ECHO | ICANON | ISIG | IEXTEN);
    termios.cc.set(VMIN, 1);
    termios.cc.set(VTIME, 0);
    proof {
        assert(termios.cc@ =~= old(termios).cc@.update(VMIN as int, 1u8).update(
            VTIME as int,
            0u8,
        ));
    }
}

/// The decimal digit string for `n`, no leading zeros (`0` for zero).
pub open spec fn dec_render(n: nat) -> Seq<u8>
    decreases n,
{
    if n < 10 {
        seq![(48 + n) as u8]
    } else {
        dec_render(n / 10).push((48 + n % 10) as u8)
    }
}

/// Renders a number as its decimal digit string.
pub fn format_number(n: u16) -> (r: Vec<u8>)
    ensures
        r@ == dec_render(n as nat),
    decreases n,
{
    if n < 10 {
        let mut r: Vec<u8> = Vec::new();
        r.push(48 + (n as u8));
        proof {
            assert(r@ =~= seq![(48 + n as nat) as u8]);
        }
        r
    } else {
        let mut r = format_number(n / 10);
        r.push(48 + ((n % 10) as u8));
        r
    }
}

/// Writes the decimal digits of `n` to the terminal.
pub fn write_number(n: u16) {
    let digits = format_number(n);
    let _ = puts(digits.as_slice());
}

} // verus!
