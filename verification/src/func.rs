//! Convenience forms of the I/O layer: fire-and-forget output and
//! zero-terminated line input.
use vstd::prelude::*;
use crate::syscall::{stdin_read, stdout_write};

verus! {

/// Writes a message to standard output, ignoring the outcome.
pub fn puts(buf: &[u8]) {
    let _ = stdout_write(buf);
}

/// Reads into `buf` and zero-terminates what was read: after a read of
/// `n > 0` bytes the byte at `n - 1` becomes the terminator.  Reports the
/// count read, or zero when nothing was read.
pub fn gets(buf: &mut Vec<u8>) -> (r: usize)
    ensures
        final(buf)@.len() == old(buf)@.len(),
        r <= old(buf)@.len(),
        r > 0 ==> final(buf)@[r - 1] == 0,
{
    let res = stdin_read(buf);
    match res {
        Ok(n) => {
            if n == 0 {
                return 0;
            }
            buf.set(n - 1, 0);
            n
        },
        Err(_) => 0,
    }
}

} // verus!
