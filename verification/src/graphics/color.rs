//! Eight-bit RGBA colours and their textual form.
//!
//! A colour is written as a `#` followed by hexadecimal digits, two per
//! channel, in the order red, green, blue and, optionally, alpha.

use vstd::arithmetic::div_mod::{lemma_basic_div, lemma_div_is_ordered_by_denominator};
use vstd::arithmetic::power2::{lemma2_to64, lemma_pow2_pos, lemma_pow2_strictly_increases, pow2};
use vstd::bits::lemma_u32_shr_is_div;
use vstd::prelude::*;

verus! {

broadcast use vstd::string::is_ascii_spec_bytes;

/// A colour with four independent 8-bit channels.
#[derive(Debug, PartialEq, Eq, Structural, Clone, Copy)]
pub struct Color {
    pub r: u8,
    pub g: u8,
    pub b: u8,
    pub a: u8,
}

/// Why a piece of text is not a colour.
#[derive(Debug, PartialEq, Eq, Structural, Clone, Copy)]
pub enum ParseColorError {
    /// The text ends before the digits of red, green and blue are complete.
    TooShort,
    /// The text holds a character that may not stand where it stands: its
    /// first character is not `#`, or one behind that is not a hexadecimal
    /// digit.
    InvalidCharacter,
}

/// The value of an upper-case hexadecimal digit, `None` for any other character.
pub open spec fn upper_digit(c: char) -> Option<u8> {
    if '0' <= c <= '9' {
        Some((c as u8 - '0' as u8) as u8)
    } else if 'A' <= c <= 'F' {
        Some((c as u8 - 'A' as u8 + 10) as u8)
    } else {
        None
    }
}

/// The character with the letters `a` to `z` replaced by `A` to `Z`.
pub open spec fn ascii_upper(c: char) -> char {
    if 'a' <= c <= 'z' {
        ((c as u8 - 32) as u8) as char
    } else {
        c
    }
}

/// The value of a hexadecimal digit of either case.
pub open spec fn hex_digit(c: char) -> Option<u8> {
    upper_digit(ascii_upper(c))
}

/// What stands behind the first character of a text.
pub open spec fn hex_body(text: Seq<char>) -> Seq<char> {
    text.skip(1)
}

/// The text with every letter in upper case.
pub open spec fn upper_text(text: Seq<char>) -> Seq<char> {
    Seq::new(text.len(), |i: int| ascii_upper(text[i]))
}

/// Every character is a hexadecimal digit of either case.
pub open spec fn all_hex_digits(text: Seq<char>) -> bool {
    forall|i: int| 0 <= i < text.len() ==> (#[trigger] hex_digit(text[i])) is Some
}

/// Every character is an upper-case hexadecimal digit.
pub open spec fn all_upper_digits(digits: Seq<char>) -> bool {
    forall|i: int| 0 <= i < digits.len() ==> (#[trigger] upper_digit(digits[i])) is Some
}

/// The byte that the two upper-case digits at `at` and `at + 1` spell, most
/// significant digit first.
pub open spec fn byte_at(digits: Seq<char>, at: int) -> u8 {
    (upper_digit(digits[at])->0 * 16 + upper_digit(digits[at + 1])->0) as u8
}

/// What reading one byte at `at` gives: the byte that the two digits spell,
/// or the error of the first character that is missing or is no digit.
pub open spec fn pair_at(digits: Seq<char>, at: int) -> Result<u8, ParseColorError> {
    if at >= digits.len() {
        Err(ParseColorError::TooShort)
    } else if upper_digit(digits[at]) is None {
        Err(ParseColorError::InvalidCharacter)
    } else if at + 1 >= digits.len() {
        Err(ParseColorError::TooShort)
    } else if upper_digit(digits[at + 1]) is None {
        Err(ParseColorError::InvalidCharacter)
    } else {
        Ok(byte_at(digits, at))
    }
}

/// The colour that a text denotes.
///
/// The text must begin with `#`. Behind it, every character must be a
/// hexadecimal digit of either case, and there must be at least six of them.
/// The first three pairs are red, green and blue. The fourth pair, where it
/// is complete, is alpha; otherwise alpha is 255. Digits behind the eighth
/// have no part in the colour.
///
/// The empty text is too short. A text that begins with anything but `#`
/// holds a character that may not stand there.
pub open spec fn parse_hex(text: Seq<char>) -> Result<Color, ParseColorError> {
    let digits = upper_text(hex_body(text));
    if text.len() == 0 {
        Err(ParseColorError::TooShort)
    } else if text[0] != '#' {
        Err(ParseColorError::InvalidCharacter)
    } else if !all_upper_digits(digits) {
        Err(ParseColorError::InvalidCharacter)
    } else if digits.len() < 6 {
        Err(ParseColorError::TooShort)
    } else {
        Ok(
            Color {
                r: byte_at(digits, 0),
                g: byte_at(digits, 2),
                b: byte_at(digits, 4),
                a: if digits.len() >= 8 {
                    byte_at(digits, 6)
                } else {
                    255
                },
            },
        )
    }
}

/// Whether a single-precision bit pattern has its sign bit set.
pub open spec fn single_is_negative(bits: u32) -> bool {
    bits >= 0x8000_0000
}

/// The biased exponent of a single-precision bit pattern, from 0 to 255.
pub open spec fn single_exponent(bits: u32) -> int {
    ((bits as int) % 0x8000_0000) / 0x80_0000
}

/// The 23 fraction bits of a single-precision bit pattern.
pub open spec fn single_fraction(bits: u32) -> int {
    (bits as int) % 0x80_0000
}

/// Whether a single-precision bit pattern is no number.
pub open spec fn single_is_nan(bits: u32) -> bool {
    single_exponent(bits) == 255 && single_fraction(bits) != 0
}

/// Whether a single-precision bit pattern is an infinity.
pub open spec fn single_is_infinite(bits: u32) -> bool {
    single_exponent(bits) == 255 && single_fraction(bits) == 0
}

/// The significand of a finite single-precision number, as an integer: its
/// magnitude is `single_significand(bits) * 2^single_scale(bits)`.
pub open spec fn single_significand(bits: u32) -> int {
    if single_exponent(bits) == 0 {
        single_fraction(bits)
    } else {
        0x80_0000 + single_fraction(bits)
    }
}

/// The power of two by which the significand of a finite single-precision
/// number is scaled.
pub open spec fn single_scale(bits: u32) -> int {
    if single_exponent(bits) == 0 {
        -149
    } else {
        single_exponent(bits) - 150
    }
}

/// The largest integer that is not above `magnitude * 2^power`, where
/// `magnitude` is the magnitude of a finite single-precision number.
pub open spec fn single_scaled_floor(bits: u32, power: int) -> int {
    let scale = single_scale(bits) + power;
    if scale >= 0 {
        single_significand(bits) * pow2(scale as nat)
    } else {
        single_significand(bits) / (pow2((-scale) as nat) as int)
    }
}

/// The alpha channel that fading to `alpha` gives, where `alpha` is a
/// single-precision number given by its bit pattern: the largest integer not
/// above `alpha * 256`, held to the range of a channel. What is below zero,
/// or no number, gives 0; what is above 255, gives 255.
pub open spec fn fade_alpha(alpha_bits: u32) -> u8 {
    if single_is_nan(alpha_bits) || single_is_negative(alpha_bits) {
        0
    } else if single_is_infinite(alpha_bits) || single_scaled_floor(alpha_bits, 8) > 255 {
        255
    } else {
        single_scaled_floor(alpha_bits, 8) as u8
    }
}

/// The bit pattern of the single-precision number one half.
pub const ONE_HALF: u32 = 0x3F00_0000;

/// The ASCII code of `#`.
const HASH: u8 = 0x23;

/// The upper-case form of an ASCII letter; any other character unchanged.
fn to_ascii_upper(c: char) -> (upper: char)
    ensures
        upper == ascii_upper(c),
{
    if 'a' <= c && c <= 'z' {
        ((c as u8) - 32) as char
    } else {
        c
    }
}

impl ParseColorError {
    /// A short description of the error.
    pub fn message(&self) -> (text: &'static str)
        ensures
            text@ == (match *self {
                ParseColorError::TooShort => "invalid"@,
                ParseColorError::InvalidCharacter => "invalid character"@,
            }),
    {
        match self {
            ParseColorError::TooShort => "invalid",
            ParseColorError::InvalidCharacter => "invalid character",
        }
    }
}

impl Color {
    /// Builds a colour from its four channels.
    pub fn from_rgb(r: u8, g: u8, b: u8, a: u8) -> (color: Self)
        ensures
            color == (Color { r, g, b, a }),
    {
        Color { r, g, b, a }
    }

    /// The value of an upper-case hexadecimal digit.
    pub fn is_valid(c: char) -> (value: Option<u8>)
        ensures
            value == upper_digit(c),
            value matches Some(v) ==> v < 16,
    {
        match c {
            '0' => Some(0),
            '1' => Some(1),
            '2' => Some(2),
            '3' => Some(3),
            '4' => Some(4),
            '5' => Some(5),
            '6' => Some(6),
            '7' => Some(7),
            '8' => Some(8),
            '9' => Some(9),
            'A' => Some(10),
            'B' => Some(11),
            'C' => Some(12),
            'D' => Some(13),
            'E' => Some(14),
            'F' => Some(15),
            _ => None,
        }
    }

    /// Reads the two upper-case digits at `at` and `at + 1` as one byte.
    pub fn next_two(digits: &[char], at: usize) -> (byte: Result<u8, ParseColorError>)
        ensures
            byte == pair_at(digits@, at as int),
    {
        if at >= digits.len() {
            return Err(ParseColorError::TooShort);
        }
        let high = match Self::is_valid(digits[at]) {
            Some(v) => v,
            None => {
                return Err(ParseColorError::InvalidCharacter);
            },
        };
        if at + 1 >= digits.len() {
            return Err(ParseColorError::TooShort);
        }
        let low = match Self::is_valid(digits[at + 1]) {
            Some(v) => v,
            None => {
                return Err(ParseColorError::InvalidCharacter);
            },
        };
        Ok(high * 16 + low)
    }

    /// Parses a colour written as a `#` and six or eight hexadecimal digits
    /// of either case.
    pub fn from_hex(hex: &str) -> (color: Result<Self, ParseColorError>)
        ensures
            color == parse_hex(hex@),
    {
        if !hex.is_ascii() {
            proof {
                lemma_non_ascii_is_rejected(hex@);
            }
            return Err(ParseColorError::InvalidCharacter);
        }
        let bytes = hex.as_bytes();
        if bytes.len() == 0 {
            return Err(ParseColorError::TooShort);
        }
        if bytes[0] != HASH {
            return Err(ParseColorError::InvalidCharacter);
        }
        let start: usize = 1;
        let ghost body = hex_body(hex@);
        let mut digits: Vec<char> = Vec::new();
        let mut i: usize = start;
        while i < bytes.len()
            invariant
                bytes@.len() == hex@.len(),
                forall|k: int| 0 <= k < bytes@.len() ==> bytes@[k] as char == hex@[k],
                body == hex_body(hex@),
                body.len() == hex@.len() - start,
                forall|k: int| 0 <= k < body.len() ==> body[k] == hex@[k + start],
                start <= i <= bytes.len(),
                digits@.len() == i - start,
                forall|k: int| 0 <= k < digits@.len() ==> digits@[k] == ascii_upper(body[k]),
                forall|k: int| 0 <= k < digits@.len() ==> (#[trigger] upper_digit(digits@[k])) is Some,
            decreases bytes.len() - i,
        {
            let c = to_ascii_upper(bytes[i] as char);
            assert(bytes@[i as int] as char == body[i - start]);
            if Self::is_valid(c).is_none() {
                assert(upper_digit(upper_text(body)[i - start]) is None);
                return Err(ParseColorError::InvalidCharacter);
            }
            digits.push(c);
            i = i + 1;
        }
        assert(digits@ =~= upper_text(body));
        let red = match Self::next_two(digits.as_slice(), 0) {
            Ok(v) => v,
            Err(e) => {
                return Err(e);
            },
        };
        let green = match Self::next_two(digits.as_slice(), 2) {
            Ok(v) => v,
            Err(e) => {
                return Err(e);
            },
        };
        let blue = match Self::next_two(digits.as_slice(), 4) {
            Ok(v) => v,
            Err(e) => {
                return Err(e);
            },
        };
        let alpha = match Self::next_two(digits.as_slice(), 6) {
            Ok(v) => v,
            Err(_) => 255,
        };
        Ok(Color { r: red, g: green, b: blue, a: alpha })
    }

    /// The colour with another alpha channel; red, green and blue stay.
    pub open spec fn with_alpha(self, a: u8) -> Color {
        Color { r: self.r, g: self.g, b: self.b, a }
    }

    /// The alpha channel for an opacity given as a single-precision bit
    /// pattern: the opacity times 256, rounded down and held to 0..=255.
    pub fn alpha_level(alpha_bits: u32) -> (level: u8)
        ensures
            level == fade_alpha(alpha_bits),
    {
        let magnitude: u32 = alpha_bits % 0x8000_0000;
        let exponent: u32 = magnitude / 0x80_0000;
        let fraction: u32 = magnitude % 0x80_0000;
        assert(fraction == alpha_bits % 0x80_0000) by (bit_vector)
            requires
                magnitude == alpha_bits % 0x8000_0000,
                fraction == magnitude % 0x80_0000,
        ;
        if alpha_bits >= 0x8000_0000 || (exponent == 255 && fraction != 0) {
            return 0;
        }
        proof {
            lemma2_to64();
        }
        if exponent >= 127 {
            proof {
                if exponent < 255 {
                    let scale = exponent - 142;
                    if scale >= 0 {
                        lemma_pow2_pos(scale as nat);
                        assert(single_significand(alpha_bits) * pow2(scale as nat) >= 0x80_0000)
                            by (nonlinear_arith)
                            requires
                                single_significand(alpha_bits) >= 0x80_0000,
                                pow2(scale as nat) >= 1,
                        ;
                    } else {
                        let down = (-scale) as nat;
                        lemma_pow2_pos(down);
                        if down < 15 {
                            lemma_pow2_strictly_increases(down, 15);
                        }
                        lemma_div_is_ordered_by_denominator(
                            single_significand(alpha_bits),
                            pow2(down) as int,
                            0x8000,
                        );
                    }
                }
            }
            return 255;
        }
        if exponent < 119 {
            proof {
                let down = (-(single_scale(alpha_bits) + 8)) as nat;
                if down > 24 {
                    lemma_pow2_strictly_increases(24, down);
                }
                lemma_basic_div(single_significand(alpha_bits), pow2(down) as int);
            }
            return 0;
        }
        let significand: u32 = 0x80_0000 + fraction;
        let down: u32 = 142 - exponent;
        proof {
            lemma_u32_shr_is_div(significand, down);
            if down > 16 {
                lemma_pow2_strictly_increases(16, down as nat);
            }
            lemma_div_is_ordered_by_denominator(significand as int, 0x1_0000, pow2(down as nat) as int);
        }
        (significand >> down) as u8
    }

    /// The colour with its alpha channel replaced by the opacity `alpha`
    /// times 256, rounded down and held to 0..=255. The opacity is given as
    /// the bit pattern of a single-precision number.
    pub fn fade(self, alpha_bits: u32) -> (faded: Self)
        ensures
            faded == self.with_alpha(fade_alpha(alpha_bits)),
    {
        Color { r: self.r, g: self.g, b: self.b, a: Self::alpha_level(alpha_bits) }
    }
}

/// Fading any colour to one half sets its alpha channel to 128, and leaves the
/// other channels as they are.
pub proof fn lemma_fade_to_half(color: Color)
    ensures
        color.with_alpha(fade_alpha(ONE_HALF)) == (Color {
            r: color.r,
            g: color.g,
            b: color.b,
            a: 128,
        }),
{
    lemma2_to64();
    assert(single_exponent(ONE_HALF) == 126);
    assert(single_fraction(ONE_HALF) == 0);
    assert(single_scaled_floor(ONE_HALF, 8) == 0x80_0000int / 0x1_0000int);
}

/// A text is a colour exactly if it begins with `#` and has, behind that, at
/// least six characters, all of them hexadecimal digits. Any other text is
/// rejected: the empty text for being too short; else a text for a first
/// character that is not `#` or a later one that is no digit, wherever it
/// stands; else for being too short.
pub proof fn lemma_malformed_text_is_rejected(text: Seq<char>)
    ensures
        parse_hex(text) is Ok <==> text.len() >= 7 && text[0] == '#' && all_hex_digits(
            hex_body(text),
        ),
        parse_hex(text) == Err::<Color, ParseColorError>(ParseColorError::InvalidCharacter)
            <==> text.len() > 0 && (text[0] != '#' || !all_hex_digits(hex_body(text))),
        parse_hex(text) == Err::<Color, ParseColorError>(ParseColorError::TooShort)
            <==> text.len() == 0 || (text[0] == '#' && all_hex_digits(hex_body(text))
            && text.len() < 7),
{
    let body = hex_body(text);
    let digits = upper_text(body);
    if all_hex_digits(body) {
        assert forall|i: int| 0 <= i < digits.len() implies (#[trigger] upper_digit(
            digits[i],
        )) is Some by {
            assert(hex_digit(body[i]) is Some);
        }
    } else {
        let i = choose|i: int| 0 <= i < body.len() && !((#[trigger] hex_digit(body[i])) is Some);
        assert(upper_digit(digits[i]) is None);
    }
}

/// A text with a character outside ASCII is no colour: that character is
/// neither the leading `#` nor a hexadecimal digit.
proof fn lemma_non_ascii_is_rejected(text: Seq<char>)
    requires
        !vstd::utf8::is_ascii_chars(text),
    ensures
        parse_hex(text) == Err::<Color, ParseColorError>(ParseColorError::InvalidCharacter),
{
    let i = choose|i: int| 0 <= i < text.len() && !('\0' <= #[trigger] text[i] <= '\u{7f}');
    let body = hex_body(text);
    let digits = upper_text(body);
    if text[0] == '#' {
        assert(i >= 1);
        assert(body[i - 1] == text[i]);
        assert(upper_digit(digits[i - 1]) is None);
    }
}

} // verus!
