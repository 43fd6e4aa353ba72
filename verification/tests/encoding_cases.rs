// The color-to-byte encoding: each linear component in [0, 1] maps to
// floor(component * 255.99999).

use raybert::math::fixed::Fix;
use raybert::math::vec::Number;

fn fx(micros: i64) -> Fix {
    Fix::from_micros(micros)
}

#[test]
fn encode_white_is_255() {
    assert_eq!(fx(1_000_000).to_byte(), 255u8);
}

#[test]
fn encode_black_is_0() {
    assert_eq!(fx(0).to_byte(), 0u8);
}

#[test]
fn encode_half_is_127() {
    // floor(0.5 * 255.99999) = floor(127.999995) = 127.
    assert_eq!(fx(500_000).to_byte(), 127u8);
}
