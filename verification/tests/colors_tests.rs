use lyre::colors::{get_preset, parse_color, theme_names, theme_swatch, ColorScheme, Rgb};
use lyre::config::UiColorsConfig;

fn rgb(r: u8, g: u8, b: u8) -> Rgb {
    Rgb { r, g, b }
}

fn no_colors() -> UiColorsConfig {
    UiColorsConfig {
        foreground: None,
        background: None,
        accent: None,
        accent2: None,
        dim: None,
        highlight: None,
        playing: None,
        header_bg: None,
        selection_bg: None,
        overlay_bg: None,
        gauge_bg: None,
        art_bg: None,
        art_border: None,
    }
}

#[test]
fn hex_colors() {
    assert_eq!(parse_color("#ff8000"), rgb(255, 128, 0));
    assert_eq!(parse_color("  #A0b1C2 "), rgb(0xa0, 0xb1, 0xc2));
    assert_eq!(parse_color("#+f+f+f"), rgb(15, 15, 15));
}

#[test]
fn comma_colors() {
    assert_eq!(parse_color("10, 20,30"), rgb(10, 20, 30));
    assert_eq!(parse_color("+1,002, 255"), rgb(1, 2, 255));
}

#[test]
fn bad_colors_are_white() {
    assert_eq!(parse_color("#12345g"), rgb(255, 255, 255));
    assert_eq!(parse_color("1,2,256"), rgb(255, 255, 255));
    assert_eq!(parse_color("1,2"), rgb(255, 255, 255));
    assert_eq!(parse_color("red"), rgb(255, 255, 255));
    assert_eq!(parse_color(""), rgb(255, 255, 255));
}

#[test]
fn presets_by_name_any_case() {
    let m = get_preset("Catppuccin").unwrap();
    assert_eq!(m.foreground, rgb(0xcd, 0xd6, 0xf4));
    assert_eq!(get_preset("catppuccin-mocha").unwrap(), m);
    assert!(get_preset("nope").is_none());
    assert_eq!(get_preset("NORD").unwrap().background, rgb(0x2e, 0x34, 0x40));
}

#[test]
fn configured_colors_win() {
    let mut c = no_colors();
    c.accent = Some("1, 2, 3".to_string());
    let s = ColorScheme::from_config(&c, Some("nord"));
    assert_eq!(s.accent, rgb(1, 2, 3));
    assert_eq!(s.background, rgb(0x2e, 0x34, 0x40));
    let d = ColorScheme::from_config(&no_colors(), None);
    assert_eq!(d.foreground, rgb(0xdc, 0xd7, 0xcd));
    let u = ColorScheme::from_config(&no_colors(), Some("unknown"));
    assert_eq!(u, d);
}

#[test]
fn swatches_and_names() {
    let s = theme_swatch("nope");
    assert_eq!(s[0], rgb(0xd6, 0xa3, 0x62));
    assert_eq!(s.len(), 5);
    let names = theme_names();
    assert_eq!(names[0], "default");
    assert_eq!(names.len(), 35);
}
