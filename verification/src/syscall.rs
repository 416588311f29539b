//! The payload program's I/O layer: byte reads from standard input, byte
//! writes to standard output, and the errno conventions of the raw kernel
//! interface it models.
use vstd::prelude::*;

verus! {

/// Standard input's file descriptor.
pub const STDIN: usize = 0;

/// Standard output's file descriptor.
pub const STDOUT: usize = 1;

/// The kernel reports an error as a value in the last `MAX_ERRNO` slots of
/// the unsigned range.
pub const MAX_ERRNO: usize = 4095;

/// A kernel-style result: a count on success, an errno on failure.
pub type SysResult = Result<usize, usize>;

/// Whether a raw kernel return value encodes an error.
pub fn is_error(result: usize) -> (r: bool)
    ensures
        r == (result > usize::MAX - MAX_ERRNO),
{
    result > usize::MAX - MAX_ERRNO
}

/// Relies on `std::io::Write::write` on standard output: a successful write
/// consumes at most the buffer, and a failed one surfaces the OS error.
#[verifier::external_body]
pub(crate) fn stdout_write(buf: &[u8]) -> (r: SysResult)
    ensures
        r matches Ok(n) ==> n <= buf@.len(),
{
    match std::io::Write::write(&mut std::io::stdout(), buf) {
        Ok(n) => Ok(n),
        Err(e) => Err(e.raw_os_error().unwrap_or(0) as usize),
    }
}

/// Relies on `std::io::Read::read` on standard input: a successful read
/// fills at most the buffer's length and never changes that length.
#[verifier::external_body]
pub(crate) fn stdin_read(buf: &mut Vec<u8>) -> (r: SysResult)
    ensures
        final(buf)@.len() == old(buf)@.len(),
        r matches Ok(n) ==> n <= old(buf)@.len(),
{
    match std::io::Read::read(&mut std::io::stdin(), buf.as_mut_slice()) {
        Ok(n) => Ok(n),
        Err(e) => Err(e.raw_os_error().unwrap_or(0) as usize),
    }
}

/// Writes a whole message to standard output, reporting the kernel-style
/// count or error.
pub fn puts(msg: &[u8]) -> (r: SysResult)
    ensures
        r matches Ok(n) ==> n <= msg@.len(),
{
    stdout_write(msg)
}

/// Writes a single byte to standard output.
pub fn putchar(c: u8) -> (r: SysResult)
    ensures
        r matches Ok(n) ==> n <= 1,
{
    let buf: [u8; 1] = [c];
    stdout_write(buf.as_slice())
}

} // verus!
