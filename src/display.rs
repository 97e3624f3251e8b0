//! Textual rendering of colours and of places on the globe.
use vstd::prelude::*;

use crate::text::{
    dec_text, fixed_dec_text, hex_text, pad2_text, push_char, push_dec, push_dec2,
    push_dec_fixed, push_hex, push_text,
};

verus! {

/// A colour given by its red, green and blue channels.
#[derive(Debug, Clone, Copy, PartialEq, Eq, Structural)]
pub struct Color {
    pub red: u8,
    pub green: u8,
    pub blue: u8,
}

impl Color {
    /// The three channels packed into one number, red highest.
    pub open spec fn spec_rgb(&self) -> nat {
        (self.red * 65536 + self.green * 256 + self.blue) as nat
    }

    /// The three channels packed into one number, red highest.
    pub fn rgb(&self) -> (r: u32)
        ensures
            r == self.spec_rgb(),
    {
        self.red as u32 * 65536 + self.green as u32 * 256 + self.blue as u32
    }

    /// "RGB (r g b) 0xHHHHHH": each channel in decimal padded to two
    /// digits, then the packed value in six upper-case hexadecimal digits.
    pub fn to_string(&self) -> (r: String)
        ensures
            r@ == "RGB ("@ + pad2_text(self.red as nat) + seq![' '] + pad2_text(self.green as nat)
                + seq![' '] + pad2_text(self.blue as nat) + ") 0x"@ + hex_text(self.spec_rgb(), 6),
    {
        let mut out = String::new();
        push_text(&mut out, "RGB (");
        push_dec2(&mut out, self.red as u64);
        push_char(&mut out, ' ');
        push_dec2(&mut out, self.green as u64);
        push_char(&mut out, ' ');
        push_dec2(&mut out, self.blue as u64);
        push_text(&mut out, ") 0x");
        let rgb = self.rgb();
        push_hex(&mut out, rgb as u64, 6);
        assert(out@ =~= "RGB ("@ + pad2_text(self.red as nat) + seq![' '] + pad2_text(
            self.green as nat,
        ) + seq![' '] + pad2_text(self.blue as nat) + ") 0x"@ + hex_text(self.spec_rgb(), 6));
        out
    }
}

/// An angle in thousandths of a degree. The sign stands apart from the
/// magnitude, so that a negative angle too small to show still counts as
/// negative.
#[derive(Debug, Clone, Copy, PartialEq, Eq, Structural)]
pub struct Degrees {
    pub thousandths: u64,
    pub negative: bool,
}

/// The magnitude of an angle with three decimals.
pub open spec fn degrees_text(d: Degrees) -> Seq<char> {
    dec_text(d.thousandths as nat / 1000) + seq!['.'] + fixed_dec_text(
        d.thousandths as nat % 1000,
        3,
    )
}

/// Appends the magnitude of `d` with three decimals to `out`.
fn push_degrees(out: &mut String, d: Degrees)
    ensures
        final(out)@ == old(out)@ + degrees_text(d),
{
    push_dec(out, d.thousandths / 1000);
    push_char(out, '.');
    push_dec_fixed(out, d.thousandths % 1000, 3);
    assert(final(out)@ =~= old(out)@ + degrees_text(d));
}

/// A named place with its latitude and longitude.
#[derive(Debug, Clone, PartialEq, Eq)]
pub struct City {
    pub name: String,
    pub lat: Degrees,
    pub lon: Degrees,
}

/// 'N' north of the equator (or on it), 'S' south of it.
pub open spec fn lat_letter(d: Degrees) -> char {
    if d.negative {
        'S'
    } else {
        'N'
    }
}

/// 'E' east of the prime meridian (or on it), 'W' west of it.
pub open spec fn lon_letter(d: Degrees) -> char {
    if d.negative {
        'W'
    } else {
        'E'
    }
}

impl City {
    /// "name: lat°N lon°E", each angle's magnitude with three decimals and
    /// its hemisphere letter.
    pub fn to_string(&self) -> (r: String)
        ensures
            r@ == self.name@ + seq![':', ' '] + degrees_text(self.lat) + seq!['°', lat_letter(self.lat), ' ']
                + degrees_text(self.lon) + seq!['°', lon_letter(self.lon)],
    {
        let mut out = String::new();
        push_text(&mut out, self.name.as_str());
        push_char(&mut out, ':');
        push_char(&mut out, ' ');
        push_degrees(&mut out, self.lat);
        push_char(&mut out, '°');
        push_char(&mut out, if self.lat.negative { 'S' } else { 'N' });
        push_char(&mut out, ' ');
        push_degrees(&mut out, self.lon);
        push_char(&mut out, '°');
        push_char(&mut out, if self.lon.negative { 'W' } else { 'E' });
        assert(out@ =~= self.name@ + seq![':', ' '] + degrees_text(self.lat) + seq!['°', lat_letter(self.lat), ' ']
                + degrees_text(self.lon) + seq!['°', lon_letter(self.lon)]);
        out
    }
}

} // verus!
