//! A color drawn at random from a palette of hexadecimal entries.

use crate::color::Color;
use hex::FromHexError;
use rand::rngs::StdRng;
use rand::seq::SliceRandom;
use vstd::prelude::*;
use vstd::string::*;

verus! {

#[verifier::external_type_specification]
#[verifier::external_body]
pub struct ExFromHexError(hex::FromHexError);

/// Why no color came out.
#[derive(Clone, Copy, Debug, PartialEq, Eq, Structural)]
pub enum ColorError {
    /// The palette has no entry.
    EmptyPalette,
    /// The entry is not an even number of hexadecimal digits.
    InvalidHex,
    /// The entry stands for neither three nor four bytes.
    WrongLength,
}

/// The value of a hexadecimal digit, upper or lower case.
pub open spec fn hex_digit(c: u8) -> Option<int> {
    if 0x30 <= c <= 0x39 {
        Some(c - 0x30)
    } else if 0x41 <= c <= 0x46 {
        Some(c - 0x41 + 10)
    } else if 0x61 <= c <= 0x66 {
        Some(c - 0x61 + 10)
    } else {
        None
    }
}

/// `s` is an even number of hexadecimal digits.
pub open spec fn is_hex(s: Seq<u8>) -> bool {
    &&& s.len() % 2 == 0
    &&& forall|i: int| 0 <= i < s.len() ==> hex_digit(#[trigger] s[i]) is Some
}

/// The bytes that the hexadecimal digits `s` stand for, two digits to a
/// byte, the higher first.
pub open spec fn hex_decoded(s: Seq<u8>) -> Option<Seq<u8>> {
    if is_hex(s) {
        Some(
            Seq::new(
                (s.len() / 2) as nat,
                |i: int| (hex_digit(s[2 * i]).unwrap() * 16 + hex_digit(s[2 * i + 1]).unwrap()) as u8,
            ),
        )
    } else {
        None
    }
}

/// The color that decoded bytes stand for: red, green, blue and, with a
/// fourth byte, opacity; three bytes are opaque.
pub open spec fn color_of_bytes(bytes: Seq<u8>) -> Result<Color, ColorError> {
    if bytes.len() == 4 {
        Ok(Color { r: bytes[0], g: bytes[1], b: bytes[2], a: bytes[3] })
    } else if bytes.len() == 3 {
        Ok(Color { r: bytes[0], g: bytes[1], b: bytes[2], a: 255 })
    } else {
        Err(ColorError::WrongLength)
    }
}

/// The color that a palette entry stands for.
pub open spec fn color_of_entry(entry: Seq<u8>) -> Result<Color, ColorError> {
    match hex_decoded(entry) {
        Some(bytes) => color_of_bytes(bytes),
        None => Err(ColorError::InvalidHex),
    }
}

/// Decodes hexadecimal digits with `hex::decode`. Assumed of it: an even
/// number of digits, upper or lower case, gives the bytes they stand for,
/// the higher digit of each byte first; anything else gives an error.
#[verifier::external_body]
fn decode_hex(data: &[u8]) -> (r: Result<Vec<u8>, FromHexError>)
    ensures
        match hex_decoded(data@) {
            Some(bytes) => r is Ok && r.unwrap()@ == bytes,
            None => r is Err,
        },
{
    hex::decode(data)
}

/// Picks an entry with `SliceRandom::choose` of the `rand` crate. Assumed
/// of it: an empty slice gives nothing, any other gives one of its
/// elements.
#[verifier::external_body]
fn choose_entry<'a>(palette: &'a [&'static str], rng: &mut StdRng) -> (r: Option<
    &'a &'static str,
>)
    ensures
        palette@.len() == 0 <==> r is None,
        r is Some ==> exists|i: int| 0 <= i < palette@.len() && palette@[i] == *r.unwrap(),
{
    palette.choose(rng)
}

/// The color that decoded bytes stand for.
pub fn color_from_bytes(bytes: &[u8]) -> (r: Result<Color, ColorError>)
    ensures
        r == color_of_bytes(bytes@),
{
    if bytes.len() == 4 {
        Ok(Color { r: bytes[0], g: bytes[1], b: bytes[2], a: bytes[3] })
    } else if bytes.len() == 3 {
        Ok(Color { r: bytes[0], g: bytes[1], b: bytes[2], a: 255 })
    } else {
        Err(ColorError::WrongLength)
    }
}

/// The color that the palette entry `entry` stands for.
pub fn parse_color(entry: &str) -> (r: Result<Color, ColorError>)
    ensures
        r == color_of_entry(entry.spec_bytes()),
{
    match decode_hex(entry.as_bytes()) {
        Ok(bytes) => color_from_bytes(bytes.as_slice()),
        Err(_) => Err(ColorError::InvalidHex),
    }
}

/// The color of an entry of `palette` picked at random. An empty palette
/// gives none.
pub fn random_color(palette: &[&'static str], rng: &mut StdRng) -> (r: Result<Color, ColorError>)
    ensures
        palette@.len() == 0 ==> r == Err::<Color, ColorError>(ColorError::EmptyPalette),
        palette@.len() > 0 ==> exists|i: int|
            0 <= i < palette@.len() && r == color_of_entry(#[trigger] palette@[i].spec_bytes()),
{
    match choose_entry(palette, rng) {
        None => Err(ColorError::EmptyPalette),
        Some(random_hex) => parse_color(*random_hex),
    }
}

} // verus!
