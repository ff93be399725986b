use downloads_badge::badge::generate_badge;

#[test]
fn test_generate_badge() {
    let badge = generate_badge("downloads", "42", "#007ec6");
    assert!(badge.contains("downloads"));
    assert!(badge.contains("42"));
    assert!(badge.contains("#007ec6"));
}

#[test]
fn badge_is_deterministic() {
    let a = generate_badge("downloads", "5000", "#007ec6");
    let b = generate_badge("downloads", "5000", "#007ec6");
    assert_eq!(a, b);
}

#[test]
fn badge_has_fixed_geometry() {
    let badge = generate_badge("downloads", "7", "#4c1");
    assert!(badge.starts_with("<svg"));
    assert!(badge.ends_with("</svg>"));
    assert!(badge.contains("width=\"96\" height=\"20\""));
}

#[test]
fn badge_escapes_markup_in_label_and_message() {
    let badge = generate_badge("a<b", "x&\"y\"", "#007ec6");
    assert!(badge.contains("a&lt;b"));
    assert!(badge.contains("x&amp;&quot;y&quot;"));
    assert!(!badge.contains("a<b"));
    assert!(!badge.contains("\"y\""));
}

#[test]
fn badge_keeps_plain_text_verbatim() {
    let badge = generate_badge("plain label", "123456", "#fe7d37");
    assert!(badge.contains("plain label: 123456"));
}
