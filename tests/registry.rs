use radio_mirrors::query::query_is_blank;
use radio_mirrors::registry::MirrorRegistry;

#[test]
fn radio_browser_mirrors_in_order() {
    let reg = MirrorRegistry::radio_browser();
    assert_eq!(reg.len(), 7);
    assert_eq!(reg.base(0), "https://all.api.radio-browser.info");
    assert_eq!(reg.base(1), "https://de1.api.radio-browser.info");
    assert_eq!(reg.base(6), "https://es1.api.radio-browser.info");
}

#[test]
fn registry_keeps_given_order() {
    let reg = MirrorRegistry::new(vec!["z".to_string(), "a".to_string()]);
    assert_eq!(reg.len(), 2);
    assert_eq!(reg.base(0), "z");
    assert_eq!(reg.base(1), "a");
}

#[test]
fn blank_detection() {
    assert!(query_is_blank(""));
    assert!(query_is_blank(" \t\r\n"));
    assert!(query_is_blank("\u{2003}\u{3000}\u{85}"));
    assert!(!query_is_blank("  jazz  "));
    assert!(!query_is_blank("x"));
    assert!(!query_is_blank("\u{200b}"));
}
