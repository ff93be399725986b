use downloads_badge::error::BadgeError;
use downloads_badge::registry::{select, QueryTarget, Registry};
use downloads_badge::request::{build_plan, check_status, HttpMethod};

#[test]
fn select_github_modes_by_package_presence() {
    assert_eq!(select("github", true), Ok(Registry::GitHubPackage));
    assert_eq!(select("github", false), Ok(Registry::GitHubRelease));
}

#[test]
fn select_rest_backends() {
    assert_eq!(select("dockerhub", false), Ok(Registry::DockerHub));
    assert_eq!(select("npm", true), Ok(Registry::Npm));
}

#[test]
fn select_unknown_name_fails_with_the_name() {
    let result = select("bogus", false);
    assert_eq!(result, Err(BadgeError::UnknownRegistry("bogus".to_string())));
}

#[test]
fn select_is_case_sensitive_and_exact() {
    assert!(matches!(select("GitHub", true), Err(BadgeError::UnknownRegistry(_))));
    assert!(matches!(select("npm ", true), Err(BadgeError::UnknownRegistry(_))));
}

fn target(owner: &str, repo: &str, package: Option<&str>) -> QueryTarget {
    QueryTarget {
        owner: owner.to_string(),
        repo: repo.to_string(),
        package: package.map(|p| p.to_string()),
    }
}

#[test]
fn github_package_plan_builds_query_and_auth() {
    let t = target("test_owner", "test_repo", Some("test-package"));
    let plan = build_plan(Registry::GitHubPackage, &t, Some("test_token")).unwrap();
    assert_eq!(plan.method, HttpMethod::Post);
    assert_eq!(plan.url, "https://api.github.com/graphql");
    assert_eq!(plan.authorization.as_deref(), Some("Bearer test_token"));
    let expected_body = r#"{"query":"{ repository(owner: \"test_owner\", name: \"test_repo\") { packages(first: 1, names: \"test-package\") { nodes { name statistics { downloadsTotalCount } } } } }"}"#;
    assert_eq!(plan.body.as_deref(), Some(expected_body));
}

#[test]
fn github_release_plan_builds_release_query() {
    let t = target("test_owner", "test_repo", None);
    let plan = build_plan(Registry::GitHubRelease, &t, Some("test_token")).unwrap();
    assert_eq!(plan.method, HttpMethod::Post);
    let expected_body = r#"{"query":"{ repository(owner: \"test_owner\", name: \"test_repo\") { releases(last: 1) { totalCount } } }"}"#;
    assert_eq!(plan.body.as_deref(), Some(expected_body));
}

#[test]
fn github_plan_without_token_is_config_error() {
    let t = target("o", "r", Some("p"));
    assert_eq!(
        build_plan(Registry::GitHubPackage, &t, None),
        Err(BadgeError::ConfigError)
    );
}

#[test]
fn package_mode_without_package_is_usage_error() {
    let t = target("o", "r", None);
    assert_eq!(
        build_plan(Registry::GitHubPackage, &t, Some("tok")),
        Err(BadgeError::UsageError)
    );
    assert_eq!(build_plan(Registry::Npm, &t, None), Err(BadgeError::UsageError));
}

#[test]
fn dockerhub_plan_is_plain_get() {
    let t = target("library", "nginx", None);
    let plan = build_plan(Registry::DockerHub, &t, None).unwrap();
    assert_eq!(plan.method, HttpMethod::Get);
    assert_eq!(plan.url, "https://hub.docker.com/v2/repositories/library/nginx/");
    assert!(plan.body.is_none());
    assert!(plan.authorization.is_none());
}

#[test]
fn npm_plan_is_plain_get() {
    let t = target("ignored", "ignored", Some("left-pad"));
    let plan = build_plan(Registry::Npm, &t, None).unwrap();
    assert_eq!(plan.method, HttpMethod::Get);
    assert_eq!(
        plan.url,
        "https://api.npmjs.org/downloads/point/last-month/left-pad"
    );
}

#[test]
fn container_plan_builds_rest_url_with_auth() {
    let t = target("octo", "ignored", Some("widget"));
    let plan = build_plan(Registry::GitHubContainer, &t, Some("tok")).unwrap();
    assert_eq!(plan.method, HttpMethod::Get);
    assert_eq!(
        plan.url,
        "https://api.github.com/users/octo/packages/container/widget"
    );
    assert_eq!(plan.authorization.as_deref(), Some("Bearer tok"));
}

#[test]
fn status_check_accepts_success_range_only() {
    assert!(check_status(200).is_ok());
    assert!(check_status(204).is_ok());
    assert!(check_status(299).is_ok());
    assert_eq!(check_status(301), Err(BadgeError::NetworkError(301)));
    assert_eq!(check_status(404), Err(BadgeError::NetworkError(404)));
    assert_eq!(check_status(500), Err(BadgeError::NetworkError(500)));
}
