use txrp::text::{parse_usize, str_eq, trim};
use txrp::menu::{step, MenuEvent, MenuState};

#[test]
fn trim_strips_unicode_white_space() {
    assert_eq!(trim("  b\n"), "b");
    assert_eq!(trim("\t\r\n"), "");
    assert_eq!(trim("\u{3000}a b\u{a0}"), "a b");
    assert_eq!(trim("x"), "x");
    assert_eq!(trim(""), "");
}

#[test]
fn lowercase_and_compare() {
    let (state, _) = step(MenuState::CreateEncryptChoice { name: "n".to_string() }, MenuEvent::Line("Y\n".to_string()));
    assert!(matches!(state, MenuState::CreatePassword { .. }));
    let (state, _) = step(MenuState::ImportChoice, MenuEvent::Line("B\n".to_string()));
    assert!(matches!(state, MenuState::Home));
    assert!(str_eq("abc", "abc"));
    assert!(!str_eq("abc", "abd"));
    assert!(!str_eq("abc", "ab"));
}

#[test]
fn parse_usize_as_std_does() {
    for s in ["0", "7", "+5", "007", "18446744073709551615", "", "+", "-1", "1a", " 1", "18446744073709551616", "99999999999999999999"] {
        assert_eq!(parse_usize(s), s.parse::<usize>().ok(), "input {:?}", s);
    }
}
