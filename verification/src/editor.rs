//! The character editor's key handling: reading one key from the terminal,
//! decoding escape sequences and control characters, and the per-key step of
//! the editing loop.
//!
//! Reading is unbounded in time, so the loop shell that repeats until the
//! quit key lives with the program around the library; everything the loop
//! decides — what a byte means and how a key moves the cursor — is here.
use vstd::prelude::*;
use crate::bytes;
use crate::syscall::{putchar, puts, stdin_read};

verus! {

/// One decoded key press.
#[derive(Clone, Copy, Debug, PartialEq, Eq, Structural)]
pub enum Key {
    Char(u8),
    ArrowUp,
    ArrowDown,
    ArrowRight,
    ArrowLeft,
    Enter,
    Backspace,
    Quit,
}

/// The meaning of a single byte that does not open an escape sequence:
/// `q` quits, carriage return is enter, delete and backspace erase, and the
/// cursor-movement control characters map to the arrows.
pub open spec fn plain_key_of(ch: u8) -> Key {
    if ch == 113 {
        Key::Quit
    } else if ch == 13 {
        Key::Enter
    } else if ch == 127 || ch == 8 {
        Key::Backspace
    } else if ch == 2 {
        Key::ArrowLeft
    } else if ch == 6 {
        Key::ArrowRight
    } else if ch == 14 {
        Key::ArrowDown
    } else if ch == 16 {
        Key::ArrowUp
    } else {
        Key::Char(ch)
    }
}

/// The meaning of the byte that closes a bracketed escape sequence:
/// `A` through `D` are the arrows, anything else is itself.
pub open spec fn escape_key_of(ch: u8) -> Key {
    if ch == 65 {
        Key::ArrowUp
    } else if ch == 66 {
        Key::ArrowDown
    } else if ch == 67 {
        Key::ArrowRight
    } else if ch == 68 {
        Key::ArrowLeft
    } else {
        Key::Char(ch)
    }
}

/// Decodes a byte that is not the escape introducer.
pub fn classify_plain(ch: u8) -> (r: Key)
    requires
        ch != 27,
    ensures
        r == plain_key_of(ch),
{
    if ch == 113 {
        Key::Quit
    } else if ch == 13 {
        Key::Enter
    } else if ch == 127 || ch == 8 {
        Key::Backspace
    } else if ch == 2 {
        Key::ArrowLeft
    } else if ch == 6 {
        Key::ArrowRight
    } else if ch == 14 {
        Key::ArrowDown
    } else if ch == 16 {
        Key::ArrowUp
    } else {
        Key::Char(ch)
    }
}

/// Decodes the byte that closes a bracketed escape sequence.
pub fn classify_escape(ch: u8) -> (r: Key)
    ensures
        r == escape_key_of(ch),
{
    if ch == 65 {
        Key::ArrowUp
    } else if ch == 66 {
        Key::ArrowDown
    } else if ch == 67 {
        Key::ArrowRight
    } else if ch == 68 {
        Key::ArrowLeft
    } else {
        Key::Char(ch)
    }
}

/// Reads one byte from the terminal, or nothing when the read yields none.
pub fn read_char() -> Option<u8> {
    let mut buf = bytes::zeroes(1);
    match stdin_read(&mut buf) {
        Ok(n) => {
            if n > 0 {
                Some(buf[0])
            } else {
                None
            }
        },
        Err(_) => None,
    }
}

/// Reads one key press: a lone byte is decoded directly, an escape followed
/// by `[` and one more byte is decoded as a bracketed sequence, and an
/// escape that no full sequence follows is the escape character itself.
pub fn read_key() -> Option<Key> {
    match read_char() {
        None => None,
        Some(ch) => {
            if ch == 27 {
                match read_char() {
                    Some(second) => {
                        if second == 91 {
                            match read_char() {
                                Some(third) => Some(classify_escape(third)),
                                None => Some(Key::Char(27)),
                            }
                        } else {
                            Some(Key::Char(27))
                        }
                    },
                    None => Some(Key::Char(27)),
                }
            } else {
                Some(classify_plain(ch))
            }
        },
    }
}

/// The editing loop's state: whether it still runs, and where the cursor
/// is believed to stand.
#[derive(Clone, Copy, Debug, PartialEq, Eq, Structural)]
pub struct EditorState {
    pub running: bool,
    pub cursor_row: u64,
    pub cursor_col: u64,
}

/// A count one higher, stopping at the top of the range.
pub open spec fn sat_inc(x: u64) -> u64 {
    if x < u64::MAX {
        (x + 1) as u64
    } else {
        x
    }
}

/// How one key moves the editing state: quit stops the loop; enter opens a
/// new line; backspace and the left arrow step back only from a positive
/// column; the up arrow steps up only from a positive row; the other arrows
/// and every printed character step forward.
pub open spec fn editor_next(st: EditorState, key: Key) -> EditorState {
    match key {
        Key::Quit => EditorState { running: false, cursor_row: st.cursor_row, cursor_col: st.cursor_col },
        Key::Enter => EditorState {
            running: st.running,
            cursor_row: sat_inc(st.cursor_row),
            cursor_col: 0,
        },
        Key::Backspace => if st.cursor_col > 0 {
            EditorState {
                running: st.running,
                cursor_row: st.cursor_row,
                cursor_col: (st.cursor_col - 1) as u64,
            }
        } else {
            st
        },
        Key::ArrowUp => if st.cursor_row > 0 {
            EditorState {
                running: st.running,
                cursor_row: (st.cursor_row - 1) as u64,
                cursor_col: st.cursor_col,
            }
        } else {
            st
        },
        Key::ArrowDown => EditorState {
            running: st.running,
            cursor_row: sat_inc(st.cursor_row),
            cursor_col: st.cursor_col,
        },
        Key::ArrowRight => EditorState {
            running: st.running,
            cursor_row: st.cursor_row,
            cursor_col: sat_inc(st.cursor_col),
        },
        Key::ArrowLeft => if st.cursor_col > 0 {
            EditorState {
                running: st.running,
                cursor_row: st.cursor_row,
                cursor_col: (st.cursor_col - 1) as u64,
            }
        } else {
            st
        },
        Key::Char(_) => EditorState {
            running: st.running,
            cursor_row: st.cursor_row,
            cursor_col: sat_inc(st.cursor_col),
        },
    }
}

/// The state the editing loop starts in.
pub fn editor_init() -> (r: EditorState)
    ensures
        r.running,
        r.cursor_row == 0,
        r.cursor_col == 0,
{
    EditorState { running: true, cursor_row: 0, cursor_col: 0 }
}

/// Handles one key press: writes the key's terminal output and moves the
/// state exactly as `editor_next` says.
pub fn editor_step(st: &mut EditorState, key: Key)
    ensures
        *final(st) == editor_next(*old(st), key),
{
    match key {
        Key::Quit => {
            st.running = false;
        },
        Key::Enter => {
            let out: [u8; 2] = [13u8, 10u8];
            let _ = puts(out.as_slice());
            if st.cursor_row < u64::MAX {
                st.cursor_row = st.cursor_row + 1;
            }
            st.cursor_col = 0;
        },
        Key::Backspace => {
            if st.cursor_col > 0 {
                let out: [u8; 3] = [8u8, 32u8, 8u8];
                let _ = puts(out.as_slice());
                st.cursor_col = st.cursor_col - 1;
            }
        },
        Key::ArrowUp => {
            if st.cursor_row > 0 {
                let out: [u8; 3] = [27u8, 91u8, 65u8];
                let _ = puts(out.as_slice());
                st.cursor_row = st.cursor_row - 1;
            }
        },
        Key::ArrowDown => {
            let out: [u8; 3] = [27u8, 91u8, 66u8];
            let _ = puts(out.as_slice());
            if st.cursor_row < u64::MAX {
                st.cursor_row = st.cursor_row + 1;
            }
        },
        Key::ArrowRight => {
            let out: [u8; 3] = [27u8, 91u8, 67u8];
            let _ = puts(out.as_slice());
            if st.cursor_col < u64::MAX {
                st.cursor_col = st.cursor_col + 1;
            }
        },
        Key::ArrowLeft => {
            if st.cursor_col > 0 {
                let out: [u8; 3] = [27u8, 91u8, 68u8];
                let _ = puts(out.as_slice());
                st.cursor_col = st.cursor_col - 1;
            }
        },
        Key::Char(ch) => {
            let _ = putchar(ch);
            if st.cursor_col < u64::MAX {
                st.cursor_col = st.cursor_col + 1;
            }
        },
    }
}

} // verus!
