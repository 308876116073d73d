use bizray_tui::input::InputState;
use bizray_tui::models::RiskIndicator;
use bizray_tui::risk_gauge::RiskGauge;
use bizray_tui::theme::Theme;
use bizray_tui::widget::{cursor_cell_at, masked, Input, MASK};

#[test]
fn input_box_builders() {
    let input = Input::new();
    assert_eq!(input.label, "");
    assert_eq!(input.placeholder, "");
    assert!(!input.is_password);
    assert!(!input.focused);
    assert!(input.block.is_none());
    let input = input.label("Email").placeholder("user@example.com").password(true).focused(true);
    assert_eq!(input.label, "Email");
    assert_eq!(input.placeholder, "user@example.com");
    assert!(input.is_password);
    assert!(input.focused);
    let input = input.password(false).focused(false);
    assert!(!input.is_password);
    assert!(!input.focused);
    assert_eq!(input.label, "Email");
    let framed = Input::default().block(ratatui::widgets::Block::default());
    assert!(framed.block.is_some());
}

#[test]
fn input_box_shows_placeholder_mask_or_text() {
    let empty = InputState::new();
    let filled = InputState::with_value("héllo".to_string());
    let plain = Input::new().placeholder("type here");
    assert!(plain.shows_placeholder(&empty));
    assert_eq!(plain.display_text(&empty), "type here");
    assert!(!plain.shows_placeholder(&filled));
    assert_eq!(plain.display_text(&filled), "héllo");
    let focused = Input::new().placeholder("type here").focused(true);
    assert!(!focused.shows_placeholder(&empty));
    assert_eq!(focused.display_text(&empty), "");
    let secret = Input::new().placeholder("secret").password(true);
    assert_eq!(secret.display_text(&filled), "•••••");
    assert_eq!(secret.display_text(&empty), "secret");
    assert_eq!(masked(0), "");
    assert_eq!(masked(3), "•••");
    assert_eq!(MASK, '•');
}

#[test]
fn input_box_text_before_cursor() {
    let mut state = InputState::with_value("héllo".to_string());
    let plain = Input::new();
    let secret = Input::new().password(true);
    assert_eq!(plain.text_before_cursor(&state), "héllo");
    assert_eq!(secret.text_before_cursor(&state), "•••••");
    state.move_cursor_left();
    state.move_cursor_left();
    state.move_cursor_left();
    assert_eq!(plain.text_before_cursor(&state), "hé");
    assert_eq!(secret.text_before_cursor(&state), "••");
    state.move_cursor_to_start();
    assert_eq!(plain.text_before_cursor(&state), "");
}

#[test]
fn input_box_cursor_cell_counts_columns() {
    let focused = Input::new().focused(true);
    let ascii = InputState::with_value("hello".to_string());
    assert_eq!(focused.cursor_cell(&ascii, 10, 3, 20), Some((16, 4)));
    let wide = InputState::with_value("日本".to_string());
    assert_eq!(focused.cursor_cell(&wide, 10, 3, 20), Some((15, 4)));
    let mut inside = InputState::with_value("日本語".to_string());
    inside.move_cursor_left();
    assert_eq!(focused.cursor_cell(&inside, 0, 0, 20), Some((5, 1)));
    let secret = Input::new().password(true).focused(true);
    assert_eq!(secret.cursor_cell(&wide, 10, 3, 20), Some((13, 4)));
    assert_eq!(focused.cursor_cell(&ascii, 10, 3, 7), None);
    assert_eq!(focused.cursor_cell(&ascii, 10, 3, 8), Some((16, 4)));
    assert_eq!(focused.cursor_cell(&InputState::new(), 2, 5, 40), Some((3, 6)));
    assert_eq!(Input::new().cursor_cell(&ascii, 10, 3, 20), None);
}

#[test]
fn cursor_cell_stays_inside_the_frame() {
    assert_eq!(cursor_cell_at(0, 0, 0, 3), Some((1, 1)));
    assert_eq!(cursor_cell_at(0, 0, 0, 2), None);
    assert_eq!(cursor_cell_at(0, 0, 0, 0), None);
    assert_eq!(cursor_cell_at(7, 4, 9, 10), Some((12, 10)));
    assert_eq!(cursor_cell_at(8, 4, 9, 10), None);
    assert_eq!(cursor_cell_at(usize::MAX, 4, 9, 10), None);
    assert_eq!(cursor_cell_at(100, 65000, 65534, 535), Some((65101, 65535)));
    assert_eq!(cursor_cell_at(532, 65000, 0, 535), Some((65533, 1)));
    assert_eq!(cursor_cell_at(533, 65000, 0, 535), None);
}

#[test]
fn risk_gauge_rows() {
    let theme = Theme::default();
    let none: Vec<RiskIndicator> = Vec::new();
    let three: Vec<RiskIndicator> = ["a", "b", "c"]
        .iter()
        .map(|n| RiskIndicator { name: n.to_string(), value: 1.0f64.to_bits() })
        .collect();

    let empty = RiskGauge::new(None, &none, &theme);
    assert!(empty.block.is_none());
    assert_eq!(empty.risk_score, None);
    assert_eq!(empty.indicator_rows(10), 0);
    assert!(empty.shows_no_data(3));
    assert!(!empty.shows_no_data(2));
    assert!(!empty.shows_no_data(0));

    let scored = RiskGauge::new(Some(0.5f64.to_bits()), &none, &theme);
    assert!(!scored.shows_no_data(10));

    let gauge = RiskGauge::new(None, &three, &theme).block(ratatui::widgets::Block::default());
    assert!(gauge.block.is_some());
    assert_eq!(gauge.risk_indicators.len(), 3);
    assert!(!gauge.shows_no_data(10));
    assert_eq!(gauge.indicator_rows(0), 0);
    assert_eq!(gauge.indicator_rows(2), 0);
    assert_eq!(gauge.indicator_rows(3), 1);
    assert_eq!(gauge.indicator_rows(4), 2);
    assert_eq!(gauge.indicator_rows(5), 3);
    assert_eq!(gauge.indicator_rows(u16::MAX), 3);
}
