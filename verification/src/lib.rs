//! Verified core of a raw-binary packing pipeline and of the small
//! terminal program it packs.
//!
//! The pipeline side (`bytes`, `hex`, `select`, `textscan`, `tokens`,
//! `resolver`, `archive`, `pipeline`) decides every step of turning a
//! compiled module archive into a flat bootable executable: which archive
//! and object file are picked, which external-tool command runs next, how
//! the entry address is read out of a symbol table, and when a failing tool
//! aborts the build.  The terminal side (`syscall`, `func`, `termios`,
//! `terminal`, `editor`) is the payload program itself: raw-mode flag
//! handling, byte-exact serialization of the kernel structures, and the key
//! handling of the editing loop.
use vstd::prelude::*;

pub mod archive;
pub mod bytes;
pub mod editor;
pub mod func;
pub mod hex;
pub mod pipeline;
pub mod resolver;
pub mod select;
pub mod syscall;
pub mod terminal;
pub mod termios;
pub mod textscan;
pub mod tokens;
