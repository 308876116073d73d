use bizray_tui::navigation::{Navigation, Screen};

#[test]
fn test_navigation_new() {
    let nav = Navigation::new(Screen::Login);
    assert_eq!(nav.current, Screen::Login);
    assert!(!nav.can_go_back());
}

#[test]
fn test_navigation_push_pop() {
    let mut nav = Navigation::new(Screen::Login);

    nav.push(Screen::Search);
    assert_eq!(nav.current, Screen::Search);
    assert!(nav.can_go_back());

    nav.push(Screen::Results);
    assert_eq!(nav.current, Screen::Results);

    assert!(nav.pop());
    assert_eq!(nav.current, Screen::Search);

    assert!(nav.pop());
    assert_eq!(nav.current, Screen::Login);

    assert!(!nav.pop());
}

#[test]
fn test_navigation_replace() {
    let mut nav = Navigation::new(Screen::Login);

    nav.replace(Screen::Register);
    assert_eq!(nav.current, Screen::Register);
    assert!(!nav.can_go_back());
}

#[test]
fn test_navigation_reset() {
    let mut nav = Navigation::new(Screen::Login);

    nav.push(Screen::Search);
    nav.push(Screen::Results);
    assert!(nav.can_go_back());

    nav.reset(Screen::Login);
    assert_eq!(nav.current, Screen::Login);
    assert!(!nav.can_go_back());
}

#[test]
fn test_navigation_max_history() {
    let mut nav = Navigation::new(Screen::Login);
    nav.max_history = 3;

    for i in 0..5 {
        nav.push(Screen::Details(format!("company{}", i)));
    }

    assert_eq!(nav.history_len(), 3);
}

#[test]
fn test_navigation_no_duplicate_consecutive() {
    let mut nav = Navigation::new(Screen::Login);

    nav.push(Screen::Search);
    assert_eq!(nav.history_len(), 1);

    nav.push(Screen::Search);
    assert_eq!(nav.history_len(), 1);
}

#[test]
fn navigation_default_starts_at_login_with_bound_ten() {
    let nav = Navigation::default();
    assert_eq!(*nav.current(), Screen::Login);
    assert_eq!(nav.max_history, 10);
    assert_eq!(nav.history_len(), 0);
}

#[test]
fn navigation_evicts_oldest_first() {
    let mut nav = Navigation::new(Screen::Login);
    nav.max_history = 2;
    nav.push(Screen::Search);
    nav.push(Screen::Results);
    nav.push(Screen::Account);
    assert_eq!(nav.history_len(), 2);
    assert_eq!(nav.history, vec![Screen::Search, Screen::Results]);
    assert!(nav.pop());
    assert_eq!(nav.current, Screen::Results);
    assert!(nav.pop());
    assert_eq!(nav.current, Screen::Search);
    assert!(!nav.pop());
    assert_eq!(nav.current, Screen::Search);
}

#[test]
fn navigation_keeps_nothing_with_bound_zero() {
    let mut nav = Navigation::new(Screen::Login);
    nav.max_history = 0;
    nav.push(Screen::Search);
    assert_eq!(nav.current, Screen::Search);
    assert_eq!(nav.history_len(), 0);
    assert!(!nav.can_go_back());
}

#[test]
fn navigation_pop_beyond_pushes_fails_and_keeps_current() {
    let mut nav = Navigation::new(Screen::Login);
    nav.push(Screen::Search);
    nav.push(Screen::Help);
    assert!(nav.pop());
    assert!(nav.pop());
    for _ in 0..3 {
        assert!(!nav.pop());
        assert_eq!(nav.current, Screen::Login);
        assert_eq!(nav.history_len(), 0);
    }
}

#[test]
fn navigation_details_compare_by_record() {
    let mut nav = Navigation::new(Screen::Details("FN1".to_string()));
    nav.push(Screen::Details("FN1".to_string()));
    assert_eq!(nav.history_len(), 0);
    nav.push(Screen::Details("FN2".to_string()));
    assert_eq!(nav.history_len(), 1);
    assert_eq!(nav.current, Screen::Details("FN2".to_string()));
    assert_ne!(Screen::Details("FN1".to_string()), Screen::Details("FN2".to_string()));
    assert_ne!(Screen::Login, Screen::Register);
    assert_eq!(Screen::Help.clone(), Screen::Help);
}

#[test]
fn navigation_replace_keeps_history() {
    let mut nav = Navigation::new(Screen::Login);
    nav.push(Screen::Search);
    nav.replace(Screen::Details("FN7".to_string()));
    assert_eq!(nav.history_len(), 1);
    assert!(nav.pop());
    assert_eq!(nav.current, Screen::Login);
}

#[test]
fn navigation_successful_pops_never_exceed_pushes() {
    let mut nav = Navigation::new(Screen::Login);
    let mut pushes = 0;
    let mut pops = 0;
    let script = "PpPPpppPpPPPpppppP";
    for (i, op) in script.chars().enumerate() {
        if op == 'P' {
            nav.push(Screen::Details(format!("c{}", i)));
            pushes += 1;
        } else if nav.pop() {
            pops += 1;
        }
        assert!(pops + nav.history_len() <= pushes);
    }
}
