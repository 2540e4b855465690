use rsd_tui::numeric::{ascii_to_dec, parse_u32};

#[test]
fn digit_bytes_convert() {
    assert_eq!(ascii_to_dec(b'0'), 0);
    assert_eq!(ascii_to_dec(b'7'), 7);
    assert_eq!(ascii_to_dec(b'9'), 9);
}

#[test]
fn parses_exact_values() {
    assert_eq!(parse_u32(b"0", 10), Ok(0));
    assert_eq!(parse_u32(b"42", 100), Ok(42));
    assert_eq!(parse_u32(b"4294967295", u32::MAX), Ok(u32::MAX));
    assert_eq!(parse_u32(b"", 5), Ok(0));
}

#[test]
fn rejects_value_over_the_bound() {
    assert_eq!(parse_u32(b"6", 5), Err("Output exceeded maximum".to_string()));
    assert_eq!(parse_u32(b"100", 99), Err("Output exceeded maximum".to_string()));
}

#[test]
fn rejects_value_over_the_machine_word() {
    assert_eq!(
        parse_u32(b"4294967296", u32::MAX),
        Err("Addition overflow, input exceeds max allowed".to_string())
    );
}
