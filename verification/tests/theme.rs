use std::str::FromStr;

use operator_console::theme::{default_theme, set_theme, theme_name, Name, Rgb, ThemeSetting};

#[test]
fn theme_names() {
    assert_eq!(Name::all(), vec![Name::Dragon, Name::Wave]);
    assert_eq!(Name::Dragon.slug(), "kanagawa-dragon");
    assert_eq!(Name::Wave.slug(), "kanagawa-wave");
    assert_eq!(Name::Dragon.display_name(), "Kanagawa Dragon");
    assert_eq!(Name::Wave.display_name(), "Kanagawa Wave");
    assert_eq!(default_theme(), Name::Wave);
}

#[test]
fn themes_are_chosen_by_name() {
    assert_eq!(Name::from_str(" Dragon "), Ok(Name::Dragon));
    assert_eq!(Name::from_str("kanagawa-wave"), Ok(Name::Wave));
    assert_eq!(Name::from_str("TERMINAL"), Ok(Name::Wave));
    assert_eq!(
        Name::from_str("lotus"),
        Err(String::from(
            "unknown theme `lotus`; run --list-themes to see valid theme names"
        ))
    );
}

#[test]
fn stored_theme_codes_round_trip() {
    for name in Name::all() {
        assert_eq!(Name::from_code(name.code()), name);
    }
    assert_eq!(Name::from_code(7), Name::Wave);
}

#[test]
fn palettes() {
    assert_eq!(Name::Dragon.palette().shell_background, Rgb { r: 18, g: 20, b: 20 });
    assert_eq!(Name::Wave.palette().accent_red, Rgb { r: 228, g: 104, b: 118 });
    assert_eq!(Name::Wave.palette().contrast_text, Rgb { r: 29, g: 32, b: 39 });
}

#[test]
fn chosen_theme_is_read_back() {
    let mut setting = ThemeSetting::new();
    assert_eq!(theme_name(&setting), Name::Wave);
    set_theme(&mut setting, Name::Dragon);
    assert_eq!(theme_name(&setting), Name::Dragon);
    assert_eq!(setting.code(), 0);
    set_theme(&mut setting, Name::Wave);
    assert_eq!(theme_name(&setting), Name::Wave);
    assert_eq!(theme_name(&ThemeSetting::from_code(9)), Name::Wave);
}
