use tinyrust::terminal::{format_number, set_raw_mode};
use tinyrust::termios::{
    Termios, Winsize, BRKINT, CS8, ECHO, ICANON, ICRNL, IEXTEN, INPCK, ISIG, ISTRIP, IXON, OPOST,
    VMIN, VTIME,
};

#[test]
fn test_write_number() {
    let test_cases = [
        (0, "0"),
        (1, "1"),
        (42, "42"),
        (123, "123"),
        (9999, "9999"),
        (65535, "65535"),
    ];

    for (input, expected) in test_cases {
        let digits = format_number(input);
        let rendered = String::from_utf8(digits).unwrap();
        assert_eq!(
            rendered, expected,
            "write_number({}) should output '{}'",
            input, expected
        );
    }
}

#[test]
fn test_set_raw_mode() {
    let mut termios = Termios::new();

    // Set all bits to 1 in the flags
    termios.iflag = 0xFFFFFFFF;
    termios.oflag = 0xFFFFFFFF;
    termios.lflag = 0xFFFFFFFF;

    // Apply raw mode
    set_raw_mode(&mut termios);

    // Check that input flags were cleared
    assert_eq!(termios.iflag & BRKINT, 0);
    assert_eq!(termios.iflag & ICRNL, 0);
    assert_eq!(termios.iflag & INPCK, 0);
    assert_eq!(termios.iflag & ISTRIP, 0);
    assert_eq!(termios.iflag & IXON, 0);

    // Check that output flags were cleared
    assert_eq!(termios.oflag & OPOST, 0);

    // Check that control flags were set
    assert_eq!(termios.cflag & CS8, CS8);

    // Check that local flags were cleared
    assert_eq!(termios.lflag & ECHO, 0);
    assert_eq!(termios.lflag & ICANON, 0);
    assert_eq!(termios.lflag & ISIG, 0);
    assert_eq!(termios.lflag & IEXTEN, 0);

    // Check control chars
    assert_eq!(termios.cc[VMIN], 1);
    assert_eq!(termios.cc[VTIME], 0);
}

#[test]
fn test_winsize_new() {
    let winsize = Winsize::new();

    assert_eq!(winsize.rows, 0);
    assert_eq!(winsize.cols, 0);
    assert_eq!(winsize.xpixel, 0);
    assert_eq!(winsize.ypixel, 0);
}

#[test]
fn test_termios_new() {
    let termios = Termios::new();

    assert_eq!(termios.iflag, 0);
    assert_eq!(termios.oflag, 0);
    assert_eq!(termios.cflag, 0);
    assert_eq!(termios.lflag, 0);
    assert_eq!(termios.line, 0);

    // Check that all control chars are 0
    for i in 0..32 {
        assert_eq!(termios.cc[i], 0);
    }

    assert_eq!(termios.ispeed, 0);
    assert_eq!(termios.ospeed, 0);
}

#[test]
fn test_winsize_as_bytes() {
    let mut winsize = Winsize::new();
    winsize.rows = 25;
    winsize.cols = 80;

    // Test the serialized bytes
    let mut bytes = winsize.as_bytes();
    assert_eq!(bytes.len(), 8);

    // Verify bytes contain the expected values: with an explicit
    // little-endian layout they cannot be all zeros
    let all_zeros = bytes.iter().all(|&b| b == 0);
    assert!(!all_zeros, "Bytes should not be all zeros");

    // Verify that modified bytes read back into a changed struct: the first
    // two bytes are the rows field
    bytes[0] = 42;
    bytes[1] = 43;
    let winsize = Winsize::from_bytes(&bytes);
    assert_ne!(winsize.rows, 25, "Modifying bytes should affect the struct");
}

#[test]
fn test_termios_as_bytes() {
    let termios = Termios::new();

    let bytes = termios.as_bytes();
    assert_eq!(bytes.len(), 60);

    // Since it's a new termios, all bytes should be zero
    for &b in &bytes {
        assert_eq!(b, 0);
    }
}

#[test]
fn winsize_bytes_round_trip() {
    let w = Winsize {
        rows: 25,
        cols: 80,
        xpixel: 640,
        ypixel: 480,
    };
    let bytes = w.as_bytes();
    let back = Winsize::from_bytes(&bytes);
    assert_eq!(back.rows, 25);
    assert_eq!(back.cols, 80);
    assert_eq!(back.xpixel, 640);
    assert_eq!(back.ypixel, 480);
}

#[test]
fn winsize_layout_little_endian() {
    let w = Winsize {
        rows: 0x0102,
        cols: 0x0304,
        xpixel: 0,
        ypixel: 0,
    };
    let bytes = w.as_bytes();
    assert_eq!(bytes, vec![0x02, 0x01, 0x04, 0x03, 0, 0, 0, 0]);
}

#[test]
fn termios_bytes_round_trip() {
    let mut t = Termios::new();
    t.iflag = 0x01020304;
    t.oflag = 5;
    t.cflag = 6;
    t.lflag = 7;
    t.line = 8;
    t.cc[9] = 10;
    t.cc[31] = 11;
    t.ispeed = 12;
    t.ospeed = 0xA0B0C0D0;

    let bytes = t.as_bytes();
    assert_eq!(bytes.len(), 60);
    // the mode words are little-endian at their documented offsets
    assert_eq!(&bytes[0..4], &[0x04, 0x03, 0x02, 0x01]);
    // the control characters sit at offset 17
    assert_eq!(bytes[17 + 9], 10);
    assert_eq!(bytes[17 + 31], 11);
    // the padding bytes are zero
    assert_eq!(&bytes[49..52], &[0, 0, 0]);

    let back = Termios::from_bytes(&bytes);
    assert_eq!(back.iflag, 0x01020304);
    assert_eq!(back.oflag, 5);
    assert_eq!(back.cflag, 6);
    assert_eq!(back.lflag, 7);
    assert_eq!(back.line, 8);
    assert_eq!(back.cc[9], 10);
    assert_eq!(back.cc[31], 11);
    assert_eq!(back.ispeed, 12);
    assert_eq!(back.ospeed, 0xA0B0C0D0);
}

#[test]
fn format_number_exact_digits() {
    assert_eq!(format_number(7), b"7".to_vec());
    assert_eq!(format_number(10), b"10".to_vec());
    assert_eq!(format_number(40100), b"40100".to_vec());
}
