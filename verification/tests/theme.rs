use bizray_tui::theme::{Color, Style, Theme};

#[test]
fn test_theme_from_name() {
    let theme = Theme::from_name("default");
    assert_eq!(theme.primary, Color::Cyan);

    let theme = Theme::from_name("light");
    assert_eq!(theme.primary, Color::Blue);

    let theme = Theme::from_name("dark");
    assert_eq!(theme.primary, Color::Cyan);

    let theme = Theme::from_name("invalid");
    assert_eq!(theme.primary, Color::Cyan);
}

#[test]
fn test_risk_color() {
    let theme = Theme::default();

    assert_eq!(theme.risk_color(Some(0.8f64.to_bits())), theme.risk_high);
    assert_eq!(theme.risk_color(Some(0.5f64.to_bits())), theme.risk_medium);
    assert_eq!(theme.risk_color(Some(0.2f64.to_bits())), theme.risk_low);
    assert_eq!(theme.risk_color(None), theme.risk_na);
}

#[test]
fn test_risk_emoji() {
    assert_eq!(Theme::risk_emoji(Some(0.8f64.to_bits())), "ðŸ”´");
    assert_eq!(Theme::risk_emoji(Some(0.5f64.to_bits())), "ðŸŸ¡");
    assert_eq!(Theme::risk_emoji(Some(0.2f64.to_bits())), "ðŸŸ¢");
    assert_eq!(Theme::risk_emoji(None), "âšª");
}

#[test]
fn theme_colors() {
    let dark = Theme::dark();
    assert_eq!(dark, Theme::default());
    assert_eq!(dark.background, Color::Black);
    assert_eq!(dark.foreground, Color::White);
    assert_eq!(dark.disabled, Color::DarkGray);
    assert_eq!(dark.focused, Color::Yellow);
    let light = Theme::light();
    assert_eq!(light, Theme::from_name("light"));
    assert_eq!(light.background, Color::White);
    assert_eq!(light.foreground, Color::Black);
    assert_eq!(light.secondary, Color::Cyan);
    assert_eq!(light.disabled, Color::Gray);
    assert_eq!(light.info, Color::Blue);
    assert_eq!(light.risk_high, Color::Red);
    assert_eq!(Theme::from_name("Light"), Theme::default());
    assert_eq!(Theme::from_name(""), Theme::default());
}

#[test]
fn theme_styles() {
    let theme = Theme::default();
    let plain = |fg| Style { fg: Some(fg), bg: None, bold: false };
    let bold = |fg| Style { fg: Some(fg), bg: None, bold: true };
    assert_eq!(
        theme.normal(),
        Style { fg: Some(Color::White), bg: Some(Color::Black), bold: false }
    );
    assert_eq!(theme.bold(), Style { fg: Some(Color::White), bg: Some(Color::Black), bold: true });
    assert_eq!(theme.selected(), bold(Color::Cyan));
    assert_eq!(theme.focused(), bold(Color::Yellow));
    assert_eq!(theme.focused_border(), plain(Color::Yellow));
    assert_eq!(theme.normal_border(), plain(Color::Gray));
    assert_eq!(theme.title(), bold(Color::Cyan));
    assert_eq!(theme.subtitle(), plain(Color::Blue));
    assert_eq!(theme.error_style(), bold(Color::Red));
    assert_eq!(theme.success_style(), bold(Color::Green));
    assert_eq!(theme.warning_style(), bold(Color::Yellow));
    assert_eq!(theme.info_style(), plain(Color::Cyan));
    assert_eq!(theme.disabled_style(), plain(Color::DarkGray));
    assert_eq!(theme.risk_style(Some(0.9f64.to_bits())), bold(Color::Red));
    assert_eq!(theme.risk_style(Some(0.4f64.to_bits())), bold(Color::Yellow));
    assert_eq!(theme.risk_style(Some(f64::NAN.to_bits())), bold(Color::Green));
    assert_eq!(theme.risk_style(None), bold(Color::Gray));
}
