//! Colors as four 8-bit channels, with a verified hex-string parser.
//!
//! A channel holds `0..=255`, where 255 is full intensity.  Hex strings come
//! in the four shapes `#RGB`, `RGB`, `#RRGGBB` and `RRGGBB`; a single-digit
//! channel `d` means `dd`, that is `17 * d`.

use vstd::prelude::*;

verus! {

use vstd::slice::slice_index_get;
use vstd::string::StringSliceAdditionalSpecFns;

#[derive(Clone, Copy, Debug, PartialEq, Eq, Structural)]
pub struct Color {
    pub r: u8,
    pub g: u8,
    pub b: u8,
    pub a: u8,
}

/// `b` is the ASCII code of a hexadecimal digit.
pub open spec fn is_hex_digit(b: u8) -> bool {
    (48 <= b <= 57) || (97 <= b <= 102) || (65 <= b <= 70)
}

/// The value of the hexadecimal digit with ASCII code `b`.
pub open spec fn hex_val(b: u8) -> int {
    if 48 <= b <= 57 {
        b - 48
    } else if 97 <= b <= 102 {
        b - 87
    } else {
        b - 55
    }
}

/// The digits of a hex color: the bytes with a single leading `#` removed.
pub open spec fn hex_digits(s: Seq<u8>) -> Seq<u8> {
    if s.len() > 0 && s[0] == 35 {
        s.skip(1)
    } else {
        s
    }
}

/// The bytes spell a hex color: three or six hexadecimal digits, with or
/// without a leading `#`.
pub open spec fn valid_hex_color(s: Seq<u8>) -> bool {
    let t = hex_digits(s);
    (t.len() == 3 || t.len() == 6) && (forall|i: int| 0 <= i < t.len() ==> is_hex_digit(#[trigger] t[i]))
}

/// Channel `k` (0 red, 1 green, 2 blue) spelled by a valid hex color.
pub open spec fn channel_of(s: Seq<u8>, k: int) -> int {
    let t = hex_digits(s);
    if t.len() == 3 {
        17 * hex_val(t[k])
    } else {
        16 * hex_val(t[2 * k]) + hex_val(t[2 * k + 1])
    }
}

impl Color {
    /// A color from its four channels.
    pub fn new(r: u8, g: u8, b: u8, a: u8) -> (c: Color)
        ensures
            c == (Color { r, g, b, a }),
    {
        Color { r, g, b, a }
    }

    /// An opaque color from its three channels.
    pub fn from_rgb(r: u8, g: u8, b: u8) -> (c: Color)
        ensures
            c == (Color { r, g, b, a: 255u8 }),
    {
        Color { r, g, b, a: 255 }
    }

    /// Parse a hex color string such as `"#fff"` or `"1a2b3c"`.
    pub fn from_hexstring(hex: &str) -> (c: Color)
        requires
            valid_hex_color(hex.spec_bytes()),
        ensures
            c.r == channel_of(hex.spec_bytes(), 0),
            c.g == channel_of(hex.spec_bytes(), 1),
            c.b == channel_of(hex.spec_bytes(), 2),
            c.a == 255,
    {
        let bytes: &[u8] = hex.as_bytes();
        let ghost all: Seq<u8> = hex.spec_bytes();
        let skip: usize = if bytes.len() > 0 && *slice_index_get(bytes, 0) == 35 {
            1
        } else {
            0
        };
        proof {
            assert(hex_digits(all) =~= all.skip(skip as int));
        }
        if bytes.len() - skip == 3 {
            proof {
                assert(hex_digits(all)[0] == all[skip as int]);
                assert(hex_digits(all)[1] == all[skip + 1]);
                assert(hex_digits(all)[2] == all[skip + 2]);
            }
            let r = hex_digit_val(*slice_index_get(bytes, skip));
            let g = hex_digit_val(*slice_index_get(bytes, skip + 1));
            let b = hex_digit_val(*slice_index_get(bytes, skip + 2));
            Color { r: 17 * r, g: 17 * g, b: 17 * b, a: 255 }
        } else {
            proof {
                assert(hex_digits(all)[0] == all[skip as int]);
                assert(hex_digits(all)[1] == all[skip + 1]);
                assert(hex_digits(all)[2] == all[skip + 2]);
                assert(hex_digits(all)[3] == all[skip + 3]);
                assert(hex_digits(all)[4] == all[skip + 4]);
                assert(hex_digits(all)[5] == all[skip + 5]);
            }
            let r = hex_pair_val(*slice_index_get(bytes, skip), *slice_index_get(bytes, skip + 1));
            let g = hex_pair_val(
                *slice_index_get(bytes, skip + 2),
                *slice_index_get(bytes, skip + 3),
            );
            let b = hex_pair_val(
                *slice_index_get(bytes, skip + 4),
                *slice_index_get(bytes, skip + 5),
            );
            Color { r, g, b, a: 255 }
        }
    }

    /// The red, green and blue channels.
    pub fn get_rgb_u8(&self) -> (rgb: (u8, u8, u8))
        ensures
            rgb.0 == self.r,
            rgb.1 == self.g,
            rgb.2 == self.b,
    {
        (self.r, self.g, self.b)
    }
}

/// The value of one hexadecimal digit.
fn hex_digit_val(b: u8) -> (v: u8)
    requires
        is_hex_digit(b),
    ensures
        v == hex_val(b),
        v <= 15,
{
    if 48 <= b && b <= 57 {
        b - 48
    } else if 97 <= b && b <= 102 {
        b - 87
    } else {
        b - 55
    }
}

/// The value of a pair of hexadecimal digits.
fn hex_pair_val(hi: u8, lo: u8) -> (v: u8)
    requires
        is_hex_digit(hi),
        is_hex_digit(lo),
    ensures
        v == 16 * hex_val(hi) + hex_val(lo),
{
    16 * hex_digit_val(hi) + hex_digit_val(lo)
}

} // verus!
