use termfmt::{Color, Format, FormatFlag, Hue, Rgb, SystemColor, Tint};

#[test]
fn default_format_is_plain() {
    let f = Format::default();
    for flag in [
        FormatFlag::Bold,
        FormatFlag::Italic,
        FormatFlag::Underline,
        FormatFlag::Strikethrough,
        FormatFlag::Monospace,
        FormatFlag::Inverted,
    ] {
        assert!(!f.is(flag));
    }
    assert_eq!(f.fg(), Color::Default);
    assert_eq!(f.bg(), Color::Default);
}

#[test]
fn flags_set_and_clear() {
    let mut f = Format::default();
    f.set(FormatFlag::Bold, true).set(FormatFlag::Italic, true);
    assert!(f.is(FormatFlag::Bold));
    assert!(f.is(FormatFlag::Italic));
    assert!(!f.is(FormatFlag::Underline));
    f.set(FormatFlag::Bold, false);
    assert!(!f.is(FormatFlag::Bold));
    assert!(f.is(FormatFlag::Italic));
    f.set(FormatFlag::Italic, false);
    assert_eq!(f, Format::default());
}

#[test]
fn underline_becomes_bold() {
    let mut f = Format::default();
    f.set(FormatFlag::Underline, true);
    f.underline_to_bold();
    assert!(f.is(FormatFlag::Bold));
    assert!(!f.is(FormatFlag::Underline));
    let once = f.clone();
    f.underline_to_bold();
    assert_eq!(f, once);
    let mut plain = Format::default();
    plain.underline_to_bold();
    assert_eq!(plain, Format::default());
}

#[test]
fn colors_set_and_read_back() {
    let mut f = Format::default();
    f.set_fg(Color::System(SystemColor::BrightGray));
    assert_eq!(f.fg(), Color::System(SystemColor::BrightGray));
    assert_eq!(f.bg(), Color::Default);
    let rgb = Rgb { r: 10, g: 20, b: 30 };
    f.set_bg(Color::Rgb(rgb));
    assert_eq!(f.bg(), Color::Rgb(rgb));
    f.set_fg(Color::Light(Tint::Neutral, Hue::Cyan));
    assert_eq!(f.fg(), Color::Light(Tint::Neutral, Hue::Cyan));
    f.set_bg(Color::White);
    assert_eq!(f.bg(), Color::White);
    f.set(FormatFlag::Monospace, true);
    assert_eq!(f.fg(), Color::Light(Tint::Neutral, Hue::Cyan));
    assert!(!f.is(FormatFlag::Bold));
}
