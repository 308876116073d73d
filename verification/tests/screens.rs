use bizray_tui::app::{App, MessageType, ResultsState};
use bizray_tui::hints;
use bizray_tui::screens::{
    can_preview, hint_pieces, pagination_text, purpose_preview, results_title, status_text,
    HintPiece,
};
use bizray_tui::settings::Settings;
use bizray_tui::statusbar::StatusBar;
use bizray_tui::text::signed_decimal_string;

#[test]
fn status_text_prefers_message_then_wait() {
    let mut app = App::new(Settings::default()).unwrap();
    assert_eq!(status_text(&app, "Loading..."), "Ready");
    app.loading = true;
    assert_eq!(status_text(&app, "Loading..."), "Loading...");
    assert_eq!(status_text(&app, "Logging in..."), "Logging in...");
    app.set_message("careful".to_string(), MessageType::Warning);
    assert_eq!(status_text(&app, "Loading..."), "careful");
    app.loading = false;
    assert_eq!(status_text(&app, "Loading..."), "careful");
}

#[test]
fn results_title_names_the_total() {
    let mut state = ResultsState::default();
    assert_eq!(results_title(&state), "Search Results");
    state.total = 42;
    assert_eq!(results_title(&state), "Search Results - 42 companies found");
    state.total = 1;
    assert_eq!(results_title(&state), "Search Results - 1 companies found");
    state.total = -3;
    assert_eq!(results_title(&state), "Search Results");
    state.total = i32::MAX;
    assert_eq!(results_title(&state), "Search Results - 2147483647 companies found");
}

#[test]
fn pagination_text_names_page_and_total() {
    let mut state = ResultsState::default();
    assert_eq!(pagination_text(&state), "No results");
    state.total = 100;
    assert_eq!(
        pagination_text(&state),
        "Page 1 of 9  |  100 results  |  n: Next  p: Previous  gg: First  G: Last"
    );
    state.current_page = 9;
    state.page_size = 20;
    assert_eq!(
        pagination_text(&state),
        "Page 9 of 5  |  100 results  |  n: Next  p: Previous  gg: First  G: Last"
    );
    if usize::BITS == 64 {
        state.total = -5;
        state.page_size = 12;
        state.current_page = 1;
        assert_eq!(state.total_pages(), 1537228672809129301);
        assert_eq!(
            pagination_text(&state),
            "Page 1 of 1537228672809129301  |  -5 results  |  n: Next  p: Previous  gg: First  G: Last"
        );
    }
}

#[test]
fn purpose_preview_cuts_long_texts() {
    assert_eq!(purpose_preview(&None), "No description");
    assert_eq!(purpose_preview(&Some("Handel".to_string())), "Handel");
    let exactly = "a".repeat(80);
    assert_eq!(purpose_preview(&Some(exactly.clone())), exactly);
    let long = format!("{}{}", "a".repeat(70), "bcdefghijklmnop");
    assert_eq!(long.len(), 85);
    assert_eq!(purpose_preview(&Some(long)), format!("{}bcdefgh...", "a".repeat(70)));
    let accents = format!("{}é{}", "a".repeat(75), "z".repeat(10));
    assert!(can_preview(&Some(accents.clone())));
    assert_eq!(purpose_preview(&Some(accents)), format!("{}é...", "a".repeat(75)));
}

#[test]
fn purpose_preview_not_offered_inside_a_character() {
    let straddling = format!("{}é{}", "a".repeat(76), "z".repeat(10));
    assert!(!can_preview(&Some(straddling)));
    let short = format!("{}é", "a".repeat(76));
    assert!(can_preview(&Some(short.clone())));
    assert_eq!(purpose_preview(&Some(short.clone())), short);
    assert!(can_preview(&None));
}

#[test]
fn hint_pieces_in_order() {
    let key = |text| HintPiece { text, is_key: true };
    let plain = |text| HintPiece { text, is_key: false };
    let bar = StatusBar::new("Ready").hints(vec![("q", "Quit"), ("?", "Help")]);
    assert_eq!(
        hint_pieces(&bar),
        vec![key("q"), plain(": "), plain("Quit"), plain("  "), key("?"), plain(": "), plain("Help")]
    );
    assert!(hint_pieces(&StatusBar::new("Ready")).is_empty());
    let login = StatusBar::new("Ready").hints(hints::LOGIN.to_vec());
    let line: String = hint_pieces(&login).iter().map(|p| p.text).collect();
    assert_eq!(line, "TAB: Next  Enter: Submit  Ctrl+R: Register  q: Quit");
}

#[test]
fn signed_numbers_in_decimal() {
    assert_eq!(signed_decimal_string(0), "0");
    assert_eq!(signed_decimal_string(-1), "-1");
    assert_eq!(signed_decimal_string(907), "907");
    assert_eq!(signed_decimal_string(i32::MIN), "-2147483648");
    assert_eq!(signed_decimal_string(i32::MAX), "2147483647");
}

#[test]
fn company_item_texts() {
    let mut company = bizray_tui::models::CompanySummary {
        firmenbuchnummer: "FN1".to_string(),
        name: "ACME".to_string(),
        legal_form: Some("GmbH".to_string()),
        business_purpose: None,
        seat: None,
        risk_score: Some(0.5f64.to_bits()),
    };
    let texts = bizray_tui::screens::format_company_item(2, &company, 2);
    assert_eq!(texts.prefix, "▶ ");
    assert_eq!(texts.risk, format!("{} Medium", bizray_tui::theme::RISK_MEDIUM_SIGN));
    assert_eq!(texts.legal_form, "GmbH");
    assert_eq!(texts.seat, "N/A");
    assert_eq!(texts.purpose, "No description");
    company.risk_score = None;
    company.seat = Some("Wien".to_string());
    company.legal_form = None;
    company.business_purpose = Some("Handel".to_string());
    let texts = bizray_tui::screens::format_company_item(1, &company, 2);
    assert_eq!(texts.prefix, "  ");
    assert_eq!(texts.risk, format!("{} N/A", bizray_tui::theme::RISK_UNKNOWN_SIGN));
    assert_eq!(texts.legal_form, "N/A");
    assert_eq!(texts.seat, "Wien");
    assert_eq!(texts.purpose, "Handel");
}

#[test]
fn city_filter_lines() {
    let chosen = vec!["Wien".to_string(), "Graz".to_string()];
    assert_eq!(bizray_tui::screens::city_filter_line("Graz", &chosen), "☑ Graz");
    assert_eq!(bizray_tui::screens::city_filter_line("Wien", &chosen), "☑ Wien");
    assert_eq!(bizray_tui::screens::city_filter_line("Linz", &chosen), "☐ Linz");
    assert_eq!(bizray_tui::screens::city_filter_line("wien", &chosen), "☐ wien");
    assert_eq!(bizray_tui::screens::city_filter_line("Wien", &Vec::new()), "☐ Wien");
}
