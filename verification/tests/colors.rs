use shellcaster::ui::colors::{AppColors, AppColorsFromToml, Color, ColorError};

#[test]
fn color_hex() {
    let color = String::from("#ff0000");
    let parsed = AppColors::color_from_str(&color);
    assert!(parsed.is_ok());
    assert_eq!(parsed.unwrap(), Color::Rgb { r: 255, g: 0, b: 0 });
}

#[test]
fn color_invalid_hex() {
    let color = String::from("#gg0000");
    assert!(AppColors::color_from_str(&color).is_err());
}

#[test]
fn color_invalid_hex2() {
    let color = String::from("#ff000");
    assert!(AppColors::color_from_str(&color).is_err());
}

#[test]
fn color_rgb() {
    let color = String::from("rgb(255, 0, 0)");
    let parsed = AppColors::color_from_str(&color);
    assert!(parsed.is_ok());
    assert_eq!(parsed.unwrap(), Color::Rgb { r: 255, g: 0, b: 0 });
}

#[test]
fn color_rgb_upper() {
    let color = String::from("RGB(255, 0, 0)");
    let parsed = AppColors::color_from_str(&color);
    assert!(parsed.is_ok());
    assert_eq!(parsed.unwrap(), Color::Rgb { r: 255, g: 0, b: 0 });
}

#[test]
fn color_rgb_no_space() {
    let color = String::from("rgb(255,0,0)");
    let parsed = AppColors::color_from_str(&color);
    assert!(parsed.is_ok());
    assert_eq!(parsed.unwrap(), Color::Rgb { r: 255, g: 0, b: 0 });
}

#[test]
fn color_errors_by_kind() {
    assert_eq!(AppColors::color_from_str("#zz"), Err(ColorError::InvalidHex));
    assert_eq!(AppColors::color_from_str("rgb(1,2)"), Err(ColorError::InvalidRgb));
    assert_eq!(AppColors::color_from_str("rgb(256, 0, 0)"), Err(ColorError::ComponentOutOfRange));
    assert_eq!(AppColors::color_from_str("chartreuse"), Err(ColorError::InvalidName));
}

#[test]
fn color_names_any_case() {
    assert_eq!(AppColors::color_from_str("DarkGray"), Ok(Color::DarkGrey));
    assert_eq!(AppColors::color_from_str("grey"), Ok(Color::Grey));
    assert_eq!(AppColors::color_from_str("TERMINAL"), Ok(Color::Reset));
    assert_eq!(AppColors::color_from_str("Cyan"), Ok(Color::Cyan));
}

#[test]
fn color_hex_mixed_case() {
    assert_eq!(
        AppColors::color_from_str("#0A0b1C"),
        Ok(Color::Rgb { r: 10, g: 11, b: 28 })
    );
}

fn empty_config() -> AppColorsFromToml {
    AppColorsFromToml {
        normal_foreground: None,
        normal_background: None,
        bold_foreground: None,
        bold_background: None,
        highlighted_active_foreground: None,
        highlighted_active_background: None,
        highlighted_foreground: None,
        highlighted_background: None,
        error_foreground: None,
        error_background: None,
    }
}

#[test]
fn add_from_config_sets_only_valid_values() {
    let mut colors = AppColors::default();
    let mut config = empty_config();
    config.normal_foreground = Some("blue".to_string());
    config.error_background = Some("not a colour".to_string());
    config.bold_background = Some("#010203".to_string());
    colors.add_from_config(config);
    assert_eq!(colors.normal, (Color::Blue, Color::Black));
    assert_eq!(colors.error, (Color::Red, Color::Black));
    assert_eq!(colors.bold, (Color::White, Color::Rgb { r: 1, g: 2, b: 3 }));
    assert_eq!(colors.highlighted_active, (Color::Black, Color::DarkYellow));
}

#[test]
fn add_from_empty_config_keeps_defaults() {
    let mut colors = AppColors::default();
    colors.add_from_config(empty_config());
    assert_eq!(colors, AppColors::default());
}
