use tinyrust::hex::{parse_hex_u64, render_hex_u64};
use tinyrust::resolver::{resolve_entry, ResolveError};
use tinyrust::textscan::{split_fields, split_lines};

#[test]
fn resolves_entry_address_from_symbol_table() {
    let text = b"main  T  0000000000401000\nother  t  0000000000402000";
    assert_eq!(resolve_entry(text), Ok(0x401000));
}

#[test]
fn resolution_fails_without_entry_line() {
    let text = b"other  t  0000000000402000\n_start T 400000\n";
    assert_eq!(resolve_entry(text), Err(ResolveError::NoEntry));
    assert_eq!(resolve_entry(b""), Err(ResolveError::NoEntry));
    // `main` must be a line prefix followed by the separator
    assert_eq!(
        resolve_entry(b"mainx T 401000\n"),
        Err(ResolveError::NoEntry)
    );
    assert_eq!(
        resolve_entry(b"x main T 401000\n"),
        Err(ResolveError::NoEntry)
    );
}

#[test]
fn resolution_fails_on_bad_address_field() {
    // no third field
    assert_eq!(resolve_entry(b"main T\n"), Err(ResolveError::BadAddress));
    // not hexadecimal
    assert_eq!(
        resolve_entry(b"main T zz401000\n"),
        Err(ResolveError::BadAddress)
    );
    // too wide for an address
    assert_eq!(
        resolve_entry(b"main T 00000000000401000\n"),
        Err(ResolveError::BadAddress)
    );
}

#[test]
fn resolution_takes_first_entry_line() {
    let text = b"main T 1000\nmain T 2000\n";
    assert_eq!(resolve_entry(text), Ok(0x1000));
}

#[test]
fn parse_hex_accepts_both_cases() {
    assert_eq!(parse_hex_u64(b"401000"), Some(0x401000));
    assert_eq!(parse_hex_u64(b"DEADbeef"), Some(0xdeadbeef));
    assert_eq!(parse_hex_u64(b"0"), Some(0));
    assert_eq!(parse_hex_u64(b"ffffffffffffffff"), Some(u64::MAX));
}

#[test]
fn parse_hex_rejects_bad_fields() {
    assert_eq!(parse_hex_u64(b""), None);
    assert_eq!(parse_hex_u64(b"0x401000"), None);
    assert_eq!(parse_hex_u64(b"40 10"), None);
    assert_eq!(parse_hex_u64(b"10000000000000000"), None);
}

#[test]
fn hex_round_trip_on_addresses() {
    for addr in [0u64, 1, 15, 16, 0x401000, u64::MAX] {
        let digits = render_hex_u64(addr);
        assert_eq!(parse_hex_u64(&digits), Some(addr));
    }
    assert_eq!(render_hex_u64(0x401000), b"401000".to_vec());
    assert_eq!(render_hex_u64(0), b"0".to_vec());
    assert_eq!(render_hex_u64(0xdeadbeef), b"deadbeef".to_vec());
}

#[test]
fn splits_report_lines() {
    let lines = split_lines(b"a\n\nbc\n");
    assert_eq!(lines, vec![b"a".to_vec(), b"".to_vec(), b"bc".to_vec()]);
    let lines = split_lines(b"no newline");
    assert_eq!(lines, vec![b"no newline".to_vec()]);
    let lines = split_lines(b"");
    assert_eq!(lines, Vec::<Vec<u8>>::new());
}

#[test]
fn splits_line_fields() {
    let fields = split_fields(b"main  T \t 0000000000401000");
    assert_eq!(
        fields,
        vec![
            b"main".to_vec(),
            b"T".to_vec(),
            b"0000000000401000".to_vec()
        ]
    );
    assert_eq!(split_fields(b"   "), Vec::<Vec<u8>>::new());
}
