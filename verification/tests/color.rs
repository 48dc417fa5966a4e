use voxel_build::color::{Color, InvalidColorHex, InvalidColorOctal, PackedColor};
use voxel_build::voxel::Voxel;

#[test]
fn test_size() {
    assert_eq!(std::mem::size_of::<Color>(), 3);
}

#[test]
fn test_from_octal_str() {
    assert_eq!(Color::try_from_hex_string("000000"), Ok(Color(0, 0, 0)));
    assert_eq!(
        Color::try_from_hex_string("123ABC"),
        Ok(Color(0x12, 0x3A, 0xBC))
    );
    assert_eq!(
        Color::try_from_hex_string("def789"),
        Ok(Color(0xDE, 0xF7, 0x89))
    );

    let errors = [
        "00000",
        "bcdefg",
        " 123ab",
        "cde56 ",
        "890 ff",
        "77\u{00A7}777",
    ];
    for err in errors {
        assert_eq!(
            Color::try_from_hex_string(err),
            Err(InvalidColorHex(err.to_owned()))
        );
    }
}

#[test]
fn hex_rejects_signs_and_split_characters() {
    assert_eq!(
        Color::try_from_hex_string("+1+2+3"),
        Err(InvalidColorHex("+1+2+3".to_owned()))
    );
    assert_eq!(
        Color::try_from_hex_string("a\u{00A7}bcd"),
        Err(InvalidColorHex("a\u{00A7}bcd".to_owned()))
    );
    assert_eq!(
        Color::try_from_hex_string("12345\u{00A7}"),
        Err(InvalidColorHex("12345\u{00A7}".to_owned()))
    );
    assert_eq!(
        Color::try_from_hex_string(""),
        Err(InvalidColorHex(String::new()))
    );
    assert_eq!(
        Color::try_from_hex_string("0000000"),
        Err(InvalidColorHex("0000000".to_owned()))
    );
}

#[test]
fn hex_accepts_both_cases() {
    assert_eq!(Color::try_from_hex_string("ffFFff"), Ok(Color(255, 255, 255)));
    assert_eq!(Color::try_from_hex_string("0a0B0c"), Ok(Color(10, 11, 12)));
    assert_eq!(Color::try_from_hex_string("090909"), Ok(Color(9, 9, 9)));
}

#[test]
fn hex_error_names_first_bad_position() {
    assert_eq!(InvalidColorHex("bcdefg".to_owned()).position(), Some(5));
    assert_eq!(InvalidColorHex(" 123ab".to_owned()).position(), Some(0));
    assert_eq!(InvalidColorHex("890 ff".to_owned()).position(), Some(3));
    assert_eq!(InvalidColorHex("77\u{00A7}777".to_owned()).position(), Some(2));
    assert_eq!(InvalidColorHex("00000".to_owned()).position(), None);
    assert_eq!(InvalidColorHex("0000000".to_owned()).position(), None);
}

#[test]
fn color_channels() {
    assert_eq!(Color(85, 64, 1).channels(), (85, 64, 1));
    assert_eq!(PackedColor(0o070).channels(), (1, 6, 0));
    assert_eq!(PackedColor(255).channels(), (7, 7, 3));
    assert_eq!(PackedColor(0b101_010_01).channels(), (5, 2, 1));
}

#[test]
fn octal_round_trip() {
    assert_eq!(PackedColor::try_from_octal("000"), Ok(PackedColor(0)));
    assert!(PackedColor::try_from_octal("000").unwrap().is_empty());
    assert_eq!(PackedColor::try_from_octal("773"), Ok(PackedColor(u8::MAX)));
    assert_eq!(PackedColor::try_from_octal("100"), Ok(PackedColor(32)));
    assert_eq!(PackedColor::try_from_octal("010"), Ok(PackedColor(4)));
    assert_eq!(PackedColor::try_from_octal("001"), Ok(PackedColor(1)));
    assert_eq!(PackedColor::try_from_octal("521"), Ok(PackedColor(0b101_010_01)));
}

#[test]
fn octal_every_valid_triple_packs_its_digits() {
    for r in 0u8..8 {
        for g in 0u8..8 {
            for b in 0u8..4 {
                let text = format!("{}{}{}", r, g, b);
                let packed = PackedColor::try_from_octal(&text).unwrap();
                assert_eq!(packed, PackedColor(r << 5 | g << 2 | b));
                assert_eq!(packed.channels(), (r, g, b));
            }
        }
    }
}

#[test]
fn octal_errors_are_digit_indexed() {
    let bad = |input: &str, digit: Option<u8>| InvalidColorOctal { input: input.to_owned(), digit };
    assert_eq!(PackedColor::try_from_octal("873"), Err(bad("873", Some(0))));
    assert_eq!(PackedColor::try_from_octal("783"), Err(bad("783", Some(1))));
    assert_eq!(PackedColor::try_from_octal("774"), Err(bad("774", Some(2))));
    assert_eq!(PackedColor::try_from_octal("7a3"), Err(bad("7a3", Some(1))));
    assert_eq!(PackedColor::try_from_octal("x9y"), Err(bad("x9y", Some(0))));
    assert_eq!(PackedColor::try_from_octal("77"), Err(bad("77", None)));
    assert_eq!(PackedColor::try_from_octal("7733"), Err(bad("7733", None)));
    assert_eq!(PackedColor::try_from_octal(""), Err(bad("", None)));
    assert_eq!(PackedColor::try_from_octal("7\u{00A7}3"), Err(bad("7\u{00A7}3", Some(1))));
}

#[test]
fn zero_is_the_vacant_color() {
    assert!(Color(0, 0, 0).is_empty());
    assert!(!Color(0, 0, 1).is_empty());
    assert!(!Color(1, 0, 0).is_empty());
    assert_eq!(Color::empty(), Color(0, 0, 0));
    assert!(PackedColor(0).is_empty());
    assert!(!PackedColor(1).is_empty());
    assert_eq!(PackedColor::empty(), PackedColor(0));
}

fn to_rgb_normalized(color: Color) -> [f32; 3] {
    let (r, g, b) = color.channels();
    let (r_max, g_max, b_max) = Color::channel_limits();
    [r as f32 / r_max as f32, g as f32 / g_max as f32, b as f32 / b_max as f32]
}

#[test]
fn test_to_rgb_normalized() {
    assert_eq!(to_rgb_normalized(Color(0, 0, 0)), [0., 0., 0.]);
    assert_eq!(to_rgb_normalized(Color(255, 0, 255)), [1., 0., 1.]);
    assert_eq!(
        to_rgb_normalized(Color(85, 64, 1)),
        [85. / 255., 64. / 255., 1. / 255.]
    );
    assert_eq!(
        to_rgb_normalized(Color(38, 76, 55)),
        [38. / 255., 76. / 255., 55. / 255.]
    );
}

#[test]
fn packed_channels_reach_their_limits() {
    assert_eq!(PackedColor::channel_limits(), (7, 7, 3));
    assert_eq!(PackedColor(u8::MAX).channels(), PackedColor::channel_limits());
    assert_eq!(Color::channel_limits(), (255, 255, 255));
}
