use engine::graphics::color::{Color, ParseColorError};

#[test]
fn test_color_from_hex() {
    assert!(Color::from_hex("292828").is_err());
    let color = Color::from_hex("#292828").unwrap();
    assert_eq!(
        color,
        Color {
            r: 41,
            g: 40,
            b: 40,
            a: 255
        }
    );
}

#[test]
fn from_hex_rejects_text_without_the_leading_hash() {
    for text in [
        "292828",
        "2928281",
        "29282800",
        "abcdef",
        "ABCDEF",
        " #292828",
        "0x292828",
        "x292828",
        "2",
        "g",
    ] {
        assert_eq!(
            Color::from_hex(text),
            Err(ParseColorError::InvalidCharacter),
            "{text:?}"
        );
    }
}

#[test]
fn from_hex_with_hash_has_opaque_alpha() {
    assert_eq!(
        Color::from_hex("#292828"),
        Ok(Color {
            r: 41,
            g: 40,
            b: 40,
            a: 255
        })
    );
}

#[test]
fn from_hex_reads_alpha_from_the_fourth_pair() {
    let color = Color::from_hex("#29282800").unwrap();
    assert_eq!(color.a, 0);
    assert_eq!((color.r, color.g, color.b), (41, 40, 40));
    assert_eq!(
        Color::from_hex("#FF008040"),
        Ok(Color::from_rgb(255, 0, 128, 64))
    );
}

#[test]
fn from_hex_takes_either_case() {
    let expected = Color::from_rgb(171, 205, 239, 255);
    assert_eq!(Color::from_hex("#abcdef"), Ok(expected));
    assert_eq!(Color::from_hex("#ABCDEF"), Ok(expected));
    assert_eq!(Color::from_hex("#aBcDeF"), Ok(expected));
}

#[test]
fn from_hex_black_and_white() {
    assert_eq!(Color::from_hex("#000000"), Ok(Color::from_rgb(0, 0, 0, 255)));
    assert_eq!(
        Color::from_hex("#FFFFFF"),
        Ok(Color::from_rgb(255, 255, 255, 255))
    );
}

#[test]
fn from_hex_rejects_short_text() {
    for text in ["", "#", "#2", "#29", "#292", "#2928", "#29282"] {
        assert_eq!(Color::from_hex(text), Err(ParseColorError::TooShort), "{text:?}");
    }
}

#[test]
fn from_hex_rejects_characters_that_are_no_digits() {
    for text in [
        "#29282g",
        "#g92828",
        "#2928 8",
        "##292828",
        "#292828zz",
        "#29282800zz",
        "#2928280x",
        "#29-828",
        "#g",
        "#2g",
    ] {
        assert_eq!(
            Color::from_hex(text),
            Err(ParseColorError::InvalidCharacter),
            "{text:?}"
        );
    }
}

#[test]
fn from_hex_rejects_text_outside_ascii() {
    assert_eq!(
        Color::from_hex("#29282\u{e9}"),
        Err(ParseColorError::InvalidCharacter)
    );
    assert_eq!(
        Color::from_hex("\u{fb00}\u{fb00}\u{fb00}"),
        Err(ParseColorError::InvalidCharacter)
    );
    assert_eq!(
        Color::from_hex("\u{ff03}292828"),
        Err(ParseColorError::InvalidCharacter)
    );
}

#[test]
fn from_hex_with_seven_digits_has_opaque_alpha() {
    assert_eq!(
        Color::from_hex("#2928280"),
        Ok(Color::from_rgb(41, 40, 40, 255))
    );
}

#[test]
fn from_hex_does_not_read_behind_the_eighth_digit() {
    assert_eq!(
        Color::from_hex("#2928281011"),
        Ok(Color::from_rgb(41, 40, 40, 16))
    );
}

#[test]
fn from_rgb_keeps_the_channels() {
    let color = Color::from_rgb(1, 2, 3, 4);
    assert_eq!((color.r, color.g, color.b, color.a), (1, 2, 3, 4));
}

#[test]
fn is_valid_knows_the_sixteen_upper_case_digits() {
    let digits = "0123456789ABCDEF";
    for (value, c) in digits.chars().enumerate() {
        assert_eq!(Color::is_valid(c), Some(value as u8));
    }
    for c in ['a', 'f', 'G', 'g', '/', ':', '@', ' ', '#', '\u{e9}'] {
        assert_eq!(Color::is_valid(c), None, "{c:?}");
    }
}

#[test]
fn next_two_reads_one_byte() {
    let digits: Vec<char> = "29FF0A".chars().collect();
    assert_eq!(Color::next_two(&digits, 0), Ok(0x29));
    assert_eq!(Color::next_two(&digits, 2), Ok(0xFF));
    assert_eq!(Color::next_two(&digits, 4), Ok(0x0A));
    assert_eq!(Color::next_two(&digits, 1), Ok(0x9F));
}

#[test]
fn next_two_reports_the_first_fault() {
    let digits: Vec<char> = "2G1".chars().collect();
    assert_eq!(Color::next_two(&digits, 0), Err(ParseColorError::InvalidCharacter));
    assert_eq!(Color::next_two(&digits, 1), Err(ParseColorError::InvalidCharacter));
    assert_eq!(Color::next_two(&digits, 2), Err(ParseColorError::TooShort));
    assert_eq!(Color::next_two(&digits, 3), Err(ParseColorError::TooShort));
    assert_eq!(Color::next_two(&digits, usize::MAX), Err(ParseColorError::TooShort));
    let lower: Vec<char> = "ab".chars().collect();
    assert_eq!(Color::next_two(&lower, 0), Err(ParseColorError::InvalidCharacter));
    let lone: Vec<char> = "G".chars().collect();
    assert_eq!(Color::next_two(&lone, 0), Err(ParseColorError::InvalidCharacter));
}

#[test]
fn parse_errors_describe_themselves() {
    assert_eq!(ParseColorError::TooShort.message(), "invalid");
    assert_eq!(ParseColorError::InvalidCharacter.message(), "invalid character");
}

#[test]
fn fade_to_half_sets_alpha_to_128() {
    for color in [
        Color::from_rgb(0, 0, 0, 0),
        Color::from_rgb(41, 40, 40, 255),
        Color::from_rgb(255, 255, 255, 7),
        Color::from_rgb(1, 2, 3, 128),
    ] {
        let faded = color.fade(0.5f32.to_bits());
        assert_eq!(faded.a, 128);
        assert_eq!((faded.r, faded.g, faded.b), (color.r, color.g, color.b));
    }
}

#[test]
fn one_half_is_the_bit_pattern_of_one_half() {
    assert_eq!(engine::graphics::color::ONE_HALF, 0.5f32.to_bits());
}

#[test]
fn fade_holds_alpha_to_the_range_of_a_channel() {
    let color = Color::from_rgb(9, 8, 7, 6);
    assert_eq!(color.fade(0.0f32.to_bits()).a, 0);
    assert_eq!(color.fade((-0.0f32).to_bits()).a, 0);
    assert_eq!(color.fade(1.0f32.to_bits()).a, 255);
    assert_eq!(color.fade(2.5f32.to_bits()).a, 255);
    assert_eq!(color.fade((-0.5f32).to_bits()).a, 0);
    assert_eq!(color.fade(f32::INFINITY.to_bits()).a, 255);
    assert_eq!(color.fade(f32::NEG_INFINITY.to_bits()).a, 0);
    assert_eq!(color.fade(f32::NAN.to_bits()).a, 0);
    assert_eq!(color.fade(f32::MAX.to_bits()).a, 255);
    assert_eq!(color.fade(f32::MIN_POSITIVE.to_bits()).a, 0);
    assert_eq!(color.fade(1e-45f32.to_bits()).a, 0);
}

#[test]
fn fade_rounds_down() {
    let color = Color::from_rgb(0, 0, 0, 0);
    assert_eq!(color.fade(0.25f32.to_bits()).a, 64);
    assert_eq!(color.fade(0.75f32.to_bits()).a, 192);
    assert_eq!(color.fade(0.999f32.to_bits()).a, 255);
    assert_eq!(color.fade((1.0f32 / 256.0).to_bits()).a, 1);
    assert_eq!(color.fade((0.99f32 / 256.0).to_bits()).a, 0);
    assert_eq!(color.fade(0.1f32.to_bits()).a, 25);
    assert_eq!(color.fade(0.3f32.to_bits()).a, 76);
}

#[test]
fn fade_agrees_with_single_precision_arithmetic() {
    let color = Color::from_rgb(0, 0, 0, 0);
    let mut bits: u32 = 0x1234_5678;
    for _ in 0..200_000 {
        bits = bits.wrapping_mul(1_664_525).wrapping_add(1_013_904_223);
        let alpha = f32::from_bits(bits);
        let expected = (alpha * 256.0).floor() as u8;
        assert_eq!(color.fade(bits).a, expected, "{alpha:?}");
    }
    for step in 0..=4096u32 {
        let alpha = step as f32 / 2048.0 - 0.5;
        let expected = (alpha * 256.0).floor() as u8;
        assert_eq!(Color::alpha_level(alpha.to_bits()), expected, "{alpha:?}");
    }
}
