use garlock::background::Background;
use garlock::hex::{parse_hex_color, parse_hex_pair, parse_hex_rgba};

#[test]
fn parses_rgb() {
    assert_eq!(parse_hex_color("#1a1a2e"), Some((26, 26, 46)));
    assert_eq!(parse_hex_color("1A1A2E"), Some((26, 26, 46)));
    assert_eq!(parse_hex_color("##ffffff"), Some((255, 255, 255)));
    assert_eq!(parse_hex_color("#1a1a2"), None);
    assert_eq!(parse_hex_color("#1a1a2ecc"), None);
    assert_eq!(parse_hex_color("#1g1a2e"), None);
    assert_eq!(parse_hex_color(""), None);
}

#[test]
fn plus_sign_reads_as_from_str_radix_does() {
    assert_eq!(parse_hex_color("#+f+f+f"), Some((15, 15, 15)));
    assert_eq!(parse_hex_pair(b'+', b'a'), u8::from_str_radix("+a", 16).ok());
    assert_eq!(parse_hex_pair(b'-', b'a'), u8::from_str_radix("-a", 16).ok());
    assert_eq!(parse_hex_pair(b'+', b'+'), u8::from_str_radix("++", 16).ok());
    for (a, b) in [(b'0', b'0'), (b'f', b'F'), (b'9', b'z'), (b' ', b'1'), (b'A', b'b')] {
        let s = [a, b];
        let text = std::str::from_utf8(&s).unwrap();
        assert_eq!(parse_hex_pair(a, b), u8::from_str_radix(text, 16).ok());
    }
}

#[test]
fn parses_rgba() {
    assert_eq!(parse_hex_rgba("#1e90ffcc"), Some((0x1e, 0x90, 0xff, 0xcc)));
    assert_eq!(parse_hex_rgba("#1e90ff"), Some((0x1e, 0x90, 0xff, 0xff)));
    assert_eq!(parse_hex_rgba("#00000055"), Some((0, 0, 0, 0x55)));
    assert_eq!(parse_hex_rgba("#1e90f"), None);
    assert_eq!(parse_hex_rgba("#1e90ffc"), None);
    assert_eq!(parse_hex_rgba("#1e90ffcx"), None);
}

#[test]
fn non_ascii_on_boundaries_is_no_colour() {
    assert_eq!(parse_hex_color("é1234"), None);
    assert_eq!(parse_hex_rgba("ab日"), None);
}

#[test]
fn solid_background_is_uniform() {
    let bg = Background::solid_color(3, 2, "#102030");
    assert_eq!(bg.width, 3);
    assert_eq!(bg.height, 2);
    assert_eq!(bg.data.len(), 24);
    for px in bg.data.chunks(4) {
        assert_eq!(px, &[0x30, 0x20, 0x10, 255]);
    }
}

#[test]
fn solid_background_falls_back() {
    let bg = Background::solid_color(1, 1, "not a colour");
    assert_eq!(bg.data, vec![46, 26, 26, 255]);
    let empty = Background::solid_color(0, 5, "#ffffff");
    assert!(empty.data.is_empty());
}
