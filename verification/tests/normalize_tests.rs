use downloads_badge::error::BadgeError;
use downloads_badge::json::JsonValue;
use downloads_badge::normalize::{normalize, normalize_document};
use downloads_badge::registry::Registry;

#[test]
fn github_package_count_is_extracted() {
    let body = r#"
    {
        "data": {
            "repository": {
                "packages": {
                    "nodes": [
                        {
                            "name": "test-package",
                            "statistics": {
                                "downloadsTotalCount": 42
                            }
                        }
                    ]
                }
            }
        }
    }"#;
    assert_eq!(normalize(Registry::GitHubPackage, body), Ok(42));
}

#[test]
fn github_empty_nodes_is_no_downloads() {
    let body = r#"
    {
        "data": {
            "repository": {
                "packages": {
                    "nodes": []
                }
            }
        }
    }"#;
    let result = normalize(Registry::GitHubPackage, body);
    assert!(matches!(result, Err(BadgeError::NoDownloads)));
    assert_ne!(result, Ok(0));
}

#[test]
fn github_release_count_is_extracted() {
    let body = r#"
    {
        "data": {
            "repository": {
                "releases": {
                    "totalCount": 10
                }
            }
        }
    }"#;
    assert_eq!(normalize(Registry::GitHubRelease, body), Ok(10));
}

#[test]
fn empty_body_is_no_downloads_not_parse_error() {
    assert!(matches!(
        normalize(Registry::GitHubPackage, ""),
        Err(BadgeError::NoDownloads)
    ));
    assert!(matches!(
        normalize(Registry::Npm, " \t\r\n  "),
        Err(BadgeError::NoDownloads)
    ));
}

#[test]
fn malformed_body_is_parse_error() {
    assert!(matches!(
        normalize(Registry::DockerHub, "{ not json"),
        Err(BadgeError::ParseError)
    ));
}

#[test]
fn graphql_errors_field_wins_over_data() {
    let body = r#"
    {
        "errors": [{"message": "Something went wrong"}],
        "data": {
            "repository": {
                "releases": {
                    "totalCount": 10
                }
            }
        }
    }"#;
    assert!(matches!(
        normalize(Registry::GitHubRelease, body),
        Err(BadgeError::NoDownloads)
    ));
}

#[test]
fn errors_field_is_ignored_on_rest_backends() {
    let body = r#"{"errors": [], "pull_count": 9}"#;
    assert_eq!(normalize(Registry::DockerHub, body), Ok(9));
}

#[test]
fn dockerhub_pull_count_is_extracted() {
    assert_eq!(normalize(Registry::DockerHub, r#"{"pull_count": 123}"#), Ok(123));
}

#[test]
fn dockerhub_wrong_type_is_no_downloads() {
    assert!(matches!(
        normalize(Registry::DockerHub, r#"{"pull_count": "abc"}"#),
        Err(BadgeError::NoDownloads)
    ));
}

#[test]
fn dockerhub_negative_or_fractional_is_no_downloads() {
    assert!(matches!(
        normalize(Registry::DockerHub, r#"{"pull_count": -3}"#),
        Err(BadgeError::NoDownloads)
    ));
    assert!(matches!(
        normalize(Registry::DockerHub, r#"{"pull_count": 1.5}"#),
        Err(BadgeError::NoDownloads)
    ));
}

#[test]
fn npm_downloads_is_extracted() {
    assert_eq!(normalize(Registry::Npm, r#"{"downloads": 5000}"#), Ok(5000));
}

#[test]
fn container_downloads_is_extracted() {
    assert_eq!(normalize(Registry::GitHubContainer, r#"{"downloads": 7}"#), Ok(7));
}

#[test]
fn missing_path_segment_is_no_downloads() {
    let body = r#"{"data": {"repository": {}}}"#;
    assert!(matches!(
        normalize(Registry::GitHubPackage, body),
        Err(BadgeError::NoDownloads)
    ));
    assert!(matches!(
        normalize(Registry::GitHubRelease, body),
        Err(BadgeError::NoDownloads)
    ));
}

#[test]
fn zero_count_stays_a_genuine_zero() {
    assert_eq!(normalize(Registry::Npm, r#"{"downloads": 0}"#), Ok(0));
}

#[test]
fn document_level_normalization_matches_body_level() {
    let doc = JsonValue::Object(vec![(
        "pull_count".to_string(),
        JsonValue::UInt(123),
    )]);
    assert_eq!(normalize_document(Registry::DockerHub, &doc), Ok(123));

    let wrong = JsonValue::Object(vec![(
        "pull_count".to_string(),
        JsonValue::Text("abc".to_string()),
    )]);
    assert!(matches!(
        normalize_document(Registry::DockerHub, &wrong),
        Err(BadgeError::NoDownloads)
    ));
}
