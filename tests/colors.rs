use termfmt::{Color, Hue, Rgb, SystemColor, Tint};

#[test]
fn every_code_below_one_hundred_round_trips() {
    for c in 0u8..100 {
        assert_eq!(Color::from_color_code(c).into_color_code(), Ok(c));
    }
}

#[test]
fn unknown_codes_are_default() {
    for c in 99u8..=255 {
        assert_eq!(Color::from_color_code(c), Color::Default);
    }
}

#[test]
fn system_codes_are_a_permutation() {
    assert_eq!(Color::from_color_code(0), Color::System(SystemColor::BrightGray));
    assert_eq!(Color::from_color_code(1), Color::System(SystemColor::Black));
    assert_eq!(Color::from_color_code(15), Color::System(SystemColor::Gray));
    assert_eq!(SystemColor::from_color_code(4), Some(SystemColor::BrightRed));
    assert_eq!(SystemColor::from_color_code(16), None);
    assert_eq!(Color::System(SystemColor::BrightGray).into_color_code(), Ok(0));
    assert_eq!(Color::System(SystemColor::Gray).into_color_code(), Ok(15));
    assert_eq!(SystemColor::BrightGray.into_4bit_offset(), 15);
    assert_eq!(SystemColor::Black.into_4bit_offset(), 0);
}

#[test]
fn palette_and_gray_codes_decode() {
    assert_eq!(Color::from_color_code(16), Color::Dark(Tint::Darker, Hue::Red));
    assert_eq!(Color::from_color_code(29), Color::Dark(Tint::Neutral, Hue::RedYellow));
    assert_eq!(Color::from_color_code(51), Color::Dark(Tint::Lighter, Hue::RedMagenta));
    assert_eq!(Color::from_color_code(52), Color::Light(Tint::Darker, Hue::Red));
    assert_eq!(Color::from_color_code(87), Color::Light(Tint::Lighter, Hue::RedMagenta));
    assert_eq!(Color::from_color_code(88), Color::Black);
    assert_eq!(Color::from_color_code(89), Color::DarkGray(Tint::Darker));
    assert_eq!(Color::from_color_code(93), Color::Gray(Tint::Neutral));
    assert_eq!(Color::from_color_code(97), Color::LightGray(Tint::Lighter));
    assert_eq!(Color::from_color_code(98), Color::White);
    assert_eq!(Color::Light(Tint::Neutral, Hue::Blue).into_color_code(), Ok(52 + 12 + 8));
}

#[test]
fn rgb_has_no_code() {
    let rgb = Rgb { r: 1, g: 2, b: 3 };
    assert_eq!(Color::Rgb(rgb).into_color_code(), Err(rgb));
    assert_eq!(Rgb::from((1, 2, 3)), rgb);
    assert_eq!(Color::default(), Color::Default);
    assert_eq!(Tint::default(), Tint::Neutral);
}

#[test]
fn colors_in_24_bits() {
    let none = |_: SystemColor| None;
    assert_eq!(Color::Default.into_24bit_color(none), None);
    assert_eq!(
        Color::Dark(Tint::Darker, Hue::Red).into_24bit_color(none),
        Some(Rgb { r: 0x47, g: 0x00, b: 0x00 })
    );
    assert_eq!(
        Color::Light(Tint::Lighter, Hue::RedMagenta).into_24bit_color(none),
        Some(Rgb { r: 0xff, g: 0x94, b: 0xd3 })
    );
    assert_eq!(Color::Black.into_24bit_color(none), Some(Rgb { r: 0, g: 0, b: 0 }));
    assert_eq!(
        Color::Gray(Tint::Neutral).into_24bit_color(none),
        Some(Rgb { r: 0x65, g: 0x65, b: 0x65 })
    );
    assert_eq!(Color::White.into_24bit_color(none), Some(Rgb { r: 0xff, g: 0xff, b: 0xff }));
    let rgb = Rgb { r: 9, g: 8, b: 7 };
    assert_eq!(Color::Rgb(rgb).into_24bit_color(none), Some(rgb));
}

#[test]
fn system_colors_in_24_bits() {
    let red = Color::System(SystemColor::Red);
    assert_eq!(red.into_24bit_color(|_| None), Some(Rgb { r: 0xDD, g: 0x00, b: 0x11 }));
    let theme = Rgb { r: 1, g: 1, b: 1 };
    assert_eq!(red.into_24bit_color(|_| Some(theme)), Some(theme));
    assert_eq!(SystemColor::BrightGray.into_24bit(), Rgb { r: 0xEE, g: 0xEE, b: 0xEE });
    assert_eq!(SystemColor::Blue.into_24bit(), Rgb { r: 0x00, g: 0x22, b: 0xEE });
}

#[test]
fn colors_in_8_bits() {
    assert_eq!(Color::Default.into_8bit_color(), None);
    assert_eq!(Color::Rgb(Rgb { r: 1, g: 2, b: 3 }).into_8bit_color(), None);
    assert_eq!(Color::System(SystemColor::Red).into_8bit_color(), Some(1));
    assert_eq!(Color::System(SystemColor::BrightGray).into_8bit_color(), Some(15));
    assert_eq!(Color::Dark(Tint::Darker, Hue::Red).into_8bit_color(), Some(52));
    assert_eq!(Color::Light(Tint::Darker, Hue::Red).into_8bit_color(), Some(196));
    assert_eq!(Color::Light(Tint::Lighter, Hue::RedMagenta).into_8bit_color(), Some(212));
    assert_eq!(Color::Black.into_8bit_color(), Some(16));
    assert_eq!(Color::LightGray(Tint::Lighter).into_8bit_color(), Some(254));
    assert_eq!(Color::White.into_8bit_color(), Some(231));
}

#[test]
fn rgb_as_hex_text() {
    assert_eq!(Rgb { r: 0x0A, g: 0xFF, b: 0x10 }.to_string(), "#0AFF10");
    assert_eq!(Rgb { r: 0, g: 0, b: 0 }.to_string(), "#000000");
    assert_eq!(SystemColor::Red.into_24bit().to_string(), "#DD0011");
}
