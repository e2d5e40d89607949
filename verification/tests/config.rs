use knotty::config::{Bell, BellMode, Color, OptionAsMeta, Terminal, Theme};

#[test]
fn a_colour_is_a_hash_and_six_hex_digits() {
    assert_eq!(
        Color::parse("#1e1e1e"),
        Some(Color {
            r: 30,
            g: 30,
            b: 30
        })
    );
    assert_eq!(
        Color::parse("#CC6666"),
        Some(Color {
            r: 204,
            g: 102,
            b: 102
        })
    );
}

#[test]
fn anything_else_is_not_a_colour() {
    for text in ["dark grey", "1e1e1e", "#1e1e1", "#1e1e1e0", "#1e1g1e", "", "#", "#+1e1e1"] {
        assert_eq!(Color::parse(text), None, "{text:?} was read as a colour");
    }
}

#[test]
fn the_defaults_are_what_the_file_leaves_out() {
    assert_eq!(BellMode::default(), BellMode::Visual);
    assert_eq!(Bell::default().mode, BellMode::Visual);
    assert_eq!(OptionAsMeta::default(), OptionAsMeta::Both);
    assert_eq!(Terminal::default().option_as_meta, OptionAsMeta::Both);
    let theme = Theme::default();
    assert!(theme.background.is_none() && theme.foreground.is_none());
    assert!(theme.cursor.is_none() && theme.palette.is_none());
}
