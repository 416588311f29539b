use tinyrust::archive::{find_by_affix, find_by_infix};
use tinyrust::editor::{classify_escape, classify_plain, editor_init, editor_step, Key};
use tinyrust::func::{gets, puts};
use tinyrust::pipeline::{
    init, required_tools, step, Action, BuildConfig, BuildError, Event, Stage, Tool,
};

fn cfg() -> BuildConfig {
    BuildConfig {
        manifest_dir: b"/proj".to_vec(),
        profile: b"release".to_vec(),
        work_dir: b"/work".to_vec(),
    }
}

fn names(list: &[&[u8]]) -> Vec<Vec<u8>> {
    list.iter().map(|n| n.to_vec()).collect()
}

#[test]
fn archive_selection_takes_first_match() {
    let listing = names(&[b"libfoo-aaaa.rlib", b"readme.txt"]);
    assert_eq!(find_by_affix(&listing, b"libfoo-", b".rlib"), Some(0));

    let listing = names(&[b"readme.txt"]);
    assert_eq!(find_by_affix(&listing, b"libfoo-", b".rlib"), None);

    // first of several matches, in listing order
    let listing = names(&[b"x.o", b"libfoo-a.rlib", b"libfoo-b.rlib"]);
    assert_eq!(find_by_affix(&listing, b"libfoo-", b".rlib"), Some(1));
}

#[test]
fn object_selection_takes_first_match() {
    let listing = names(&[b"libsc.rlib", b"other.o", b"tinyrust-1a2b.o", b"tinyrust-9f.o"]);
    assert_eq!(find_by_infix(&listing, b"tinyrust", b".o"), Some(2));
    let listing = names(&[b"other.o", b"tinyrust.rlib"]);
    assert_eq!(find_by_infix(&listing, b"tinyrust", b".o"), None);
}

#[test]
fn required_tools_are_checked_in_order() {
    let tools = required_tools();
    assert_eq!(
        tools,
        vec![
            b"ar".to_vec(),
            b"ld".to_vec(),
            b"objcopy".to_vec(),
            b"nasm".to_vec(),
            b"nm".to_vec()
        ]
    );
}

#[test]
fn full_build_walk_issues_exact_commands() {
    let cfg = cfg();
    let st = init();
    assert_eq!(st.stage, Stage::CheckTools);

    // tools present -> write the two assets into the scratch directory
    let (st, act) = step(&cfg, &st, Event::ToolsChecked { all_present: true });
    assert_eq!(st.stage, Stage::PrepareAssets);
    match act {
        Action::WriteAssets { script_to, stub_to } => {
            assert_eq!(script_to, b"/work/script.ld".to_vec());
            assert_eq!(stub_to, b"/work/elf.s".to_vec());
        }
        _ => panic!("expected the asset write"),
    }

    // assets written -> probe the conventional archive directory
    let (st, act) = step(&cfg, &st, Event::FileOp { ok: true });
    assert_eq!(st.stage, Stage::Materialize);
    match act {
        Action::ReadDir { dir } => assert_eq!(dir, b"/proj/target/release/deps".to_vec()),
        _ => panic!("expected the directory probe"),
    }

    // a prebuilt archive is found -> unpack it in the scratch directory
    let listing = names(&[b"notes.txt", b"libtinyrust-1a2b.rlib"]);
    let (st, act) = step(&cfg, &st, Event::Listing { names: Some(listing) });
    assert_eq!(st.stage, Stage::Unpack);
    assert_eq!(st.archive, b"/proj/target/release/deps/libtinyrust-1a2b.rlib".to_vec());
    match act {
        Action::Run { cmd } => {
            assert_eq!(cmd.tool, Tool::Ar);
            assert_eq!(
                cmd.args,
                vec![
                    b"x".to_vec(),
                    b"/proj/target/release/deps/libtinyrust-1a2b.rlib".to_vec()
                ]
            );
            assert_eq!(cmd.dir, Some(b"/work".to_vec()));
        }
        _ => panic!("expected the archiver"),
    }

    // unpacked -> list the scratch directory for the object file
    let (st, act) = step(&cfg, &st, Event::Exited { status: 0 });
    assert_eq!(st.stage, Stage::SelectObject);
    match act {
        Action::ReadDir { dir } => assert_eq!(dir, b"/work".to_vec()),
        _ => panic!("expected the directory probe"),
    }

    // the object file is picked by infix and suffix, then renamed
    let listing = names(&[b"libtinyrust-1a2b.rlib", b"tinyrust-1a2b.tinyrust.o"]);
    let (st, act) = step(&cfg, &st, Event::Listing { names: Some(listing) });
    assert_eq!(st.stage, Stage::Rename);
    match act {
        Action::RenameFile { from, to } => {
            assert_eq!(from, b"/work/tinyrust-1a2b.tinyrust.o".to_vec());
            assert_eq!(to, b"/work/tinyrust.o".to_vec());
        }
        _ => panic!("expected the rename"),
    }

    // renamed -> link against the layout script
    let (st, act) = step(&cfg, &st, Event::FileOp { ok: true });
    assert_eq!(st.stage, Stage::Link);
    match act {
        Action::Run { cmd } => {
            assert_eq!(cmd.tool, Tool::Ld);
            assert_eq!(
                cmd.args,
                vec![
                    b"--gc-sections".to_vec(),
                    b"-e".to_vec(),
                    b"main".to_vec(),
                    b"-T".to_vec(),
                    b"/work/script.ld".to_vec(),
                    b"-o".to_vec(),
                    b"/work/payload".to_vec(),
                    b"/work/tinyrust.o".to_vec()
                ]
            );
        }
        _ => panic!("expected the linker"),
    }

    // linked -> extract the single output section as a flat blob
    let (st, act) = step(&cfg, &st, Event::Exited { status: 0 });
    assert_eq!(st.stage, Stage::Extract);
    match act {
        Action::Run { cmd } => {
            assert_eq!(cmd.tool, Tool::Objcopy);
            assert_eq!(
                cmd.args,
                vec![
                    b"-j".to_vec(),
                    b"combined".to_vec(),
                    b"-O".to_vec(),
                    b"binary".to_vec(),
                    b"/work/payload".to_vec(),
                    b"/work/payload.bin".to_vec()
                ]
            );
        }
        _ => panic!("expected the section copier"),
    }

    // extracted -> dump the symbol table
    let (st, act) = step(&cfg, &st, Event::Exited { status: 0 });
    assert_eq!(st.stage, Stage::Resolve);
    match act {
        Action::RunRead { cmd } => {
            assert_eq!(cmd.tool, Tool::Nm);
            assert_eq!(
                cmd.args,
                vec![b"-f".to_vec(), b"posix".to_vec(), b"/work/payload".to_vec()]
            );
        }
        _ => panic!("expected the symbol dump"),
    }

    // the resolved address and the payload path go into the assembler
    // exactly as produced: the address minimal lowercase, the path verbatim
    let report = b"main T 0000000000401000\nother t 0000000000402000\n".to_vec();
    let (st, act) = step(&cfg, &st, Event::ExitedOut { status: 0, out: report });
    assert_eq!(st.stage, Stage::Assemble);
    match act {
        Action::Run { cmd } => {
            assert_eq!(cmd.tool, Tool::Nasm);
            assert_eq!(
                cmd.args,
                vec![
                    b"-f".to_vec(),
                    b"bin".to_vec(),
                    b"-o".to_vec(),
                    b"/work/tinyrust".to_vec(),
                    b"-D entry=0x401000".to_vec(),
                    b"-D PAYLOAD_PATH=\"/work/payload.bin\"".to_vec(),
                    b"/work/elf.s".to_vec()
                ]
            );
        }
        _ => panic!("expected the assembler"),
    }

    // assembled -> install at the canonical path
    let (st, act) = step(&cfg, &st, Event::Exited { status: 0 });
    assert_eq!(st.stage, Stage::Install);
    match act {
        Action::InstallFile { from, to } => {
            assert_eq!(from, b"/work/tinyrust".to_vec());
            assert_eq!(to, b"/proj/target/release/tinyrust".to_vec());
        }
        _ => panic!("expected the install"),
    }

    // installed -> done
    let (st, act) = step(&cfg, &st, Event::FileOp { ok: true });
    assert_eq!(st.stage, Stage::Done);
    assert!(matches!(act, Action::Finished));
}

#[test]
fn missing_archive_falls_back_to_the_compiler() {
    let cfg = cfg();
    let st = init();
    let (st, _) = step(&cfg, &st, Event::ToolsChecked { all_present: true });
    let (st, _) = step(&cfg, &st, Event::FileOp { ok: true });
    // an unreadable directory takes the fallback too
    let (st, act) = step(&cfg, &st, Event::Listing { names: None });
    assert_eq!(st.stage, Stage::Compile);
    assert_eq!(st.archive, b"/work/libtinyrust.rlib".to_vec());
    match act {
        Action::Run { cmd } => {
            assert_eq!(cmd.tool, Tool::Rustc);
            assert_eq!(
                cmd.args,
                vec![
                    b"/proj/src/lib.rs".to_vec(),
                    b"-O".to_vec(),
                    b"-C".to_vec(),
                    b"relocation-model=static".to_vec(),
                    b"--extern".to_vec(),
                    b"sc=syscall.rs/target/release/libsc.rlib".to_vec(),
                    b"-o".to_vec(),
                    b"/work/libtinyrust.rlib".to_vec()
                ]
            );
        }
        _ => panic!("expected the compiler"),
    }
    // the compiled archive is unpacked like a found one
    let (st, act) = step(&cfg, &st, Event::Exited { status: 0 });
    assert_eq!(st.stage, Stage::Unpack);
    match act {
        Action::Run { cmd } => {
            assert_eq!(cmd.tool, Tool::Ar);
            assert_eq!(
                cmd.args,
                vec![b"x".to_vec(), b"/work/libtinyrust.rlib".to_vec()]
            );
        }
        _ => panic!("expected the archiver"),
    }
}

#[test]
fn nonzero_exit_halts_before_the_next_stage() {
    let cfg = cfg();
    let st = init();
    let (st, _) = step(&cfg, &st, Event::ToolsChecked { all_present: true });
    let (st, _) = step(&cfg, &st, Event::FileOp { ok: true });
    let listing = names(&[b"libtinyrust-1a2b.rlib"]);
    let (st, _) = step(&cfg, &st, Event::Listing { names: Some(listing) });

    // the archiver fails with status 1: the build halts at once
    let (st, act) = step(&cfg, &st, Event::Exited { status: 1 });
    assert_eq!(st.stage, Stage::Failed);
    assert_eq!(st.error, Some(BuildError::ToolFailure { tool: Tool::Ar, status: 1 }));
    match act {
        Action::Report { error } => {
            assert_eq!(error, BuildError::ToolFailure { tool: Tool::Ar, status: 1 });
        }
        _ => panic!("a failing tool must only be reported"),
    }

    // whatever else is reported, nothing is installed and nothing runs
    let (st, act) = step(&cfg, &st, Event::Exited { status: 0 });
    assert_eq!(st.stage, Stage::Failed);
    assert!(matches!(act, Action::Report { .. }));
}

#[test]
fn missing_tool_halts_before_any_stage() {
    let cfg = cfg();
    let st = init();
    let (st, act) = step(&cfg, &st, Event::ToolsChecked { all_present: false });
    assert_eq!(st.stage, Stage::Failed);
    assert_eq!(st.error, Some(BuildError::MissingTool));
    assert!(matches!(act, Action::Report { .. }));
}

#[test]
fn missing_object_is_fatal() {
    let cfg = cfg();
    let st = init();
    let (st, _) = step(&cfg, &st, Event::ToolsChecked { all_present: true });
    let (st, _) = step(&cfg, &st, Event::FileOp { ok: true });
    let listing = names(&[b"libtinyrust-1a2b.rlib"]);
    let (st, _) = step(&cfg, &st, Event::Listing { names: Some(listing) });
    let (st, _) = step(&cfg, &st, Event::Exited { status: 0 });
    assert_eq!(st.stage, Stage::SelectObject);
    let listing = names(&[b"readme.txt", b"other.o"]);
    let (st, act) = step(&cfg, &st, Event::Listing { names: Some(listing) });
    assert_eq!(st.stage, Stage::Failed);
    assert_eq!(st.error, Some(BuildError::MissingObject));
    assert!(matches!(act, Action::Report { .. }));
}

#[test]
fn bad_symbol_table_is_fatal() {
    let cfg = cfg();
    let mut st = init();
    for ev in [
        Event::ToolsChecked { all_present: true },
        Event::FileOp { ok: true },
        Event::Listing { names: Some(names(&[b"libtinyrust-1a2b.rlib"])) },
        Event::Exited { status: 0 },
        Event::Listing { names: Some(names(&[b"tinyrust-1a2b.o"])) },
        Event::FileOp { ok: true },
        Event::Exited { status: 0 },
        Event::Exited { status: 0 },
    ] {
        let (next, _) = step(&cfg, &st, ev);
        st = next;
    }
    assert_eq!(st.stage, Stage::Resolve);
    let (st, _) = step(
        &cfg,
        &st,
        Event::ExitedOut { status: 0, out: b"other t 402000\n".to_vec() },
    );
    assert_eq!(st.stage, Stage::Failed);
    assert_eq!(st.error, Some(BuildError::NoEntrySymbol));
}

#[test]
fn editor_keys_are_classified() {
    assert_eq!(classify_plain(b'q'), Key::Quit);
    assert_eq!(classify_plain(b'\r'), Key::Enter);
    assert_eq!(classify_plain(127), Key::Backspace);
    assert_eq!(classify_plain(8), Key::Backspace);
    assert_eq!(classify_plain(2), Key::ArrowLeft);
    assert_eq!(classify_plain(6), Key::ArrowRight);
    assert_eq!(classify_plain(14), Key::ArrowDown);
    assert_eq!(classify_plain(16), Key::ArrowUp);
    assert_eq!(classify_plain(b'a'), Key::Char(b'a'));

    assert_eq!(classify_escape(b'A'), Key::ArrowUp);
    assert_eq!(classify_escape(b'B'), Key::ArrowDown);
    assert_eq!(classify_escape(b'C'), Key::ArrowRight);
    assert_eq!(classify_escape(b'D'), Key::ArrowLeft);
    assert_eq!(classify_escape(b'E'), Key::Char(b'E'));
}

#[test]
fn editor_cursor_bookkeeping() {
    let mut st = editor_init();
    assert!(st.running);

    editor_step(&mut st, Key::Char(b'a'));
    assert_eq!((st.cursor_row, st.cursor_col), (0, 1));

    editor_step(&mut st, Key::Enter);
    assert_eq!((st.cursor_row, st.cursor_col), (1, 0));

    // backspace and the left arrow stop at the left edge
    editor_step(&mut st, Key::Backspace);
    assert_eq!((st.cursor_row, st.cursor_col), (1, 0));
    editor_step(&mut st, Key::ArrowLeft);
    assert_eq!((st.cursor_row, st.cursor_col), (1, 0));

    editor_step(&mut st, Key::ArrowRight);
    editor_step(&mut st, Key::ArrowLeft);
    assert_eq!((st.cursor_row, st.cursor_col), (1, 0));

    // the up arrow stops at the top edge
    editor_step(&mut st, Key::ArrowUp);
    editor_step(&mut st, Key::ArrowUp);
    assert_eq!((st.cursor_row, st.cursor_col), (0, 0));
    editor_step(&mut st, Key::ArrowDown);
    assert_eq!((st.cursor_row, st.cursor_col), (1, 0));

    editor_step(&mut st, Key::Quit);
    assert!(!st.running);
}

#[test]
fn output_helpers_report_counts() {
    // puts ignores the outcome and must simply not panic
    puts(b"");
    let r = tinyrust::syscall::puts(b"");
    if let Ok(n) = r {
        assert_eq!(n, 0);
    }
    let r = tinyrust::syscall::putchar(b'\n');
    if let Ok(n) = r {
        assert!(n <= 1);
    }
}

#[test]
fn gets_keeps_the_buffer_length() {
    // the test harness gives no terminal input, so the read yields nothing
    let mut buf = vec![1u8, 2, 3, 4];
    let n = gets(&mut buf);
    assert!(n <= 4);
    assert_eq!(buf.len(), 4);
    if n > 0 {
        assert_eq!(buf[n - 1], 0);
    }
}
