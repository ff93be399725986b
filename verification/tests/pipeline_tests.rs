use downloads_badge::badge::generate_badge;
use downloads_badge::error::BadgeError;
use downloads_badge::fallback::{badge_message, FallbackPolicy};
use downloads_badge::normalize::normalize;
use downloads_badge::registry::{select, Registry};
use downloads_badge::text::u64_to_decimal;

#[test]
fn decimal_rendering_is_exact() {
    assert_eq!(u64_to_decimal(0), "0");
    assert_eq!(u64_to_decimal(42), "42");
    assert_eq!(u64_to_decimal(5000), "5000");
    assert_eq!(u64_to_decimal(u64::MAX), "18446744073709551615");
}

#[test]
fn fallback_policy_governs_no_downloads_only() {
    assert_eq!(
        badge_message(Err(BadgeError::NoDownloads), FallbackPolicy::Abort),
        Err(BadgeError::NoDownloads)
    );
    assert_eq!(
        badge_message(Err(BadgeError::NoDownloads), FallbackPolicy::DefaultZero),
        Ok("0".to_string())
    );
    assert_eq!(
        badge_message(Err(BadgeError::NoDownloads), FallbackPolicy::SubstituteNa),
        Ok("N/A".to_string())
    );
    assert_eq!(
        badge_message(Err(BadgeError::NetworkError(500)), FallbackPolicy::SubstituteNa),
        Err(BadgeError::NetworkError(500))
    );
    assert_eq!(
        badge_message(Ok(123), FallbackPolicy::Abort),
        Ok("123".to_string())
    );
}

#[test]
fn zero_and_no_downloads_render_apart() {
    let zero = badge_message(Ok(0), FallbackPolicy::SubstituteNa).unwrap();
    let absent = badge_message(Err(BadgeError::NoDownloads), FallbackPolicy::SubstituteNa).unwrap();
    assert_eq!(zero, "0");
    assert_eq!(absent, "N/A");
    assert_ne!(zero, absent);
}

#[test]
fn npm_fixture_body_renders_message_5000() {
    let registry = select("npm", true).unwrap();
    assert_eq!(registry, Registry::Npm);
    let count = normalize(registry, r#"{"downloads": 5000}"#).unwrap();
    let message = badge_message(Ok(count), FallbackPolicy::Abort).unwrap();
    assert_eq!(message, "5000");
    let badge = generate_badge("downloads", &message, "#007ec6");
    assert!(badge.contains(">5000</text>"));
}

#[test]
fn error_descriptions_carry_context() {
    let text = BadgeError::UnknownRegistry("bogus".to_string()).describe();
    assert_eq!(text, "unknown registry: bogus");
    let net = BadgeError::NetworkError(404).describe();
    assert_eq!(net, "network error, HTTP status 404");
}
