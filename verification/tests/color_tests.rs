//! Tests for the color type and its hex-string parser.

use rusty_pong::color::Color;

#[test]
fn color_new_keeps_channels() {
    let c = Color::new(1, 2, 3, 4);
    assert_eq!((c.r, c.g, c.b, c.a), (1, 2, 3, 4));
}

#[test]
fn color_from_rgb_is_opaque() {
    let c = Color::from_rgb(10, 20, 30);
    assert_eq!((c.r, c.g, c.b, c.a), (10, 20, 30, 255));
}

#[test]
fn hexstring_short_white() {
    let c = Color::from_hexstring("#fff");
    assert_eq!(c.get_rgb_u8(), (255, 255, 255));
    assert_eq!(c.a, 255);
}

#[test]
fn hexstring_short_black() {
    let c = Color::from_hexstring("#000");
    assert_eq!(c.get_rgb_u8(), (0, 0, 0));
}

#[test]
fn hexstring_short_without_hash() {
    let c = Color::from_hexstring("abc");
    assert_eq!(c.get_rgb_u8(), (170, 187, 204));
}

#[test]
fn hexstring_short_gray() {
    let c = Color::from_hexstring("#222");
    assert_eq!(c.get_rgb_u8(), (34, 34, 34));
}

#[test]
fn hexstring_long_mixed_case() {
    let c = Color::from_hexstring("#1A2b3C");
    assert_eq!(c.get_rgb_u8(), (26, 43, 60));
}

#[test]
fn hexstring_long_without_hash() {
    let c = Color::from_hexstring("ff8000");
    assert_eq!(c.get_rgb_u8(), (255, 128, 0));
}
