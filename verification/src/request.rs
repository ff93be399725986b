//! Request building for the provider clients: the two GraphQL query shapes,
//! the JSON body around a query, the REST URLs, and the authorization
//! header value. Everything here is a pure function of the query target;
//! executing the request is the caller's business.

use vstd::prelude::*;
use crate::error::BadgeError;
use crate::registry::{QueryTarget, Registry};
use crate::text::push_char;

verus! {

/// The GraphQL query for a named package's total download count under a
/// repository, first result only.
pub open spec fn spec_package_query(owner: Seq<char>, repo: Seq<char>, package: Seq<char>) -> Seq<
    char,
> {
    "{ repository(owner: \""@ + owner + "\", name: \""@ + repo
        + "\") { packages(first: 1, names: \""@ + package
        + "\") { nodes { name statistics { downloadsTotalCount } } } } }"@
}

/// The GraphQL query for a repository's most recent release and total
/// release count.
pub open spec fn spec_release_query(owner: Seq<char>, repo: Seq<char>) -> Seq<char> {
    "{ repository(owner: \""@ + owner + "\", name: \""@ + repo
        + "\") { releases(last: 1) { totalCount } } }"@
}

/// The JSON string escape of one character: the quote, the backslash and
/// the common control characters; other characters pass through unchanged.
pub open spec fn spec_json_escape_char(c: char) -> Seq<char> {
    if c == '"' {
        "\\\""@
    } else if c == '\\' {
        "\\\\"@
    } else if c == '\n' {
        "\\n"@
    } else if c == '\r' {
        "\\r"@
    } else if c == '\t' {
        "\\t"@
    } else {
        seq![c]
    }
}

/// The JSON string escape of a whole string, character by character.
pub open spec fn spec_json_escape(s: Seq<char>) -> Seq<char>
    decreases s.len(),
{
    if s.len() == 0 {
        Seq::empty()
    } else {
        spec_json_escape(s.drop_last()) + spec_json_escape_char(s.last())
    }
}

/// The request body wrapping a GraphQL query: one JSON object with the
/// query under the `query` key.
pub open spec fn spec_query_body(query: Seq<char>) -> Seq<char> {
    "{\"query\":\""@ + spec_json_escape(query) + "\"}"@
}

/// The bearer authorization header value for a credential.
pub open spec fn spec_bearer(token: Seq<char>) -> Seq<char> {
    "Bearer "@ + token
}

/// The GraphQL endpoint the GitHub package and release modes ask.
pub open spec fn spec_graphql_url() -> Seq<char> {
    "https://api.github.com/graphql"@
}

/// The REST URL of the GitHub container package mode.
pub open spec fn spec_container_url(owner: Seq<char>, package: Seq<char>) -> Seq<char> {
    "https://api.github.com/users/"@ + owner + "/packages/container/"@ + package
}

/// The REST URL of the DockerHub repository record.
pub open spec fn spec_dockerhub_url(owner: Seq<char>, repo: Seq<char>) -> Seq<char> {
    "https://hub.docker.com/v2/repositories/"@ + owner + "/"@ + repo + "/"@
}

/// The REST URL of the npm last-month download count.
pub open spec fn spec_npm_url(package: Seq<char>) -> Seq<char> {
    "https://api.npmjs.org/downloads/point/last-month/"@ + package
}

/// Escapes a string for interpolation into a JSON string literal, exactly
/// as `spec_json_escape` says.
pub fn json_escape(s: &str) -> (r: String)
    ensures
        r@ == spec_json_escape(s@),
{
    let n = s.unicode_len();
    let mut out = String::new();
    let mut i: usize = 0;
    while i < n
        invariant
            i <= n,
            n == s@.len(),
            out@ == spec_json_escape(s@.take(i as int)),
        decreases n - i,
    {
        let c = s.get_char(i);
        if c == '"' {
            out.append("\\\"");
        } else if c == '\\' {
            out.append("\\\\");
        } else if c == '\n' {
            out.append("\\n");
        } else if c == '\r' {
            out.append("\\r");
        } else if c == '\t' {
            out.append("\\t");
        } else {
            push_char(&mut out, c);
        }
        proof {
            assert(s@.take(i + 1).drop_last() =~= s@.take(i as int));
            assert(s@.take(i + 1).last() == s@[i as int]);
        }
        i += 1;
    }
    proof {
        assert(s@.take(n as int) =~= s@);
    }
    out
}

/// Builds the package-mode GraphQL query, exactly as `spec_package_query`
/// says.
pub fn package_query(owner: &str, repo: &str, package: &str) -> (r: String)
    ensures
        r@ == spec_package_query(owner@, repo@, package@),
{
    let mut q = String::from_str("{ repository(owner: \"");
    q.append(owner);
    q.append("\", name: \"");
    q.append(repo);
    q.append("\") { packages(first: 1, names: \"");
    q.append(package);
    q.append("\") { nodes { name statistics { downloadsTotalCount } } } } }");
    proof {
        assert(q@ =~= spec_package_query(owner@, repo@, package@));
    }
    q
}

/// Builds the release-mode GraphQL query, exactly as `spec_release_query`
/// says.
pub fn release_query(owner: &str, repo: &str) -> (r: String)
    ensures
        r@ == spec_release_query(owner@, repo@),
{
    let mut q = String::from_str("{ repository(owner: \"");
    q.append(owner);
    q.append("\", name: \"");
    q.append(repo);
    q.append("\") { releases(last: 1) { totalCount } } }");
    proof {
        assert(q@ =~= spec_release_query(owner@, repo@));
    }
    q
}

/// Wraps a GraphQL query in its JSON request body, exactly as
/// `spec_query_body` says.
pub fn query_body(query: &str) -> (r: String)
    ensures
        r@ == spec_query_body(query@),
{
    let mut b = String::from_str("{\"query\":\"");
    let escaped = json_escape(query);
    b.append(escaped.as_str());
    b.append("\"}");
    proof {
        assert(b@ =~= spec_query_body(query@));
    }
    b
}

/// Builds the bearer authorization header value.
pub fn bearer(token: &str) -> (r: String)
    ensures
        r@ == spec_bearer(token@),
{
    let mut h = String::from_str("Bearer ");
    h.append(token);
    proof {
        assert(h@ =~= spec_bearer(token@));
    }
    h
}

/// Whether an HTTP status code reports success.
pub open spec fn spec_status_success(status: u16) -> bool {
    200 <= status < 300
}

/// Turns a response status into the normalizer's go-ahead: `Ok` exactly on
/// a success status, otherwise a `NetworkError` carrying the status.
pub fn check_status(status: u16) -> (r: Result<(), BadgeError>)
    ensures
        spec_status_success(status) ==> r is Ok,
        !spec_status_success(status) ==> r == Err::<(), BadgeError>(BadgeError::NetworkError(
            status,
        )),
{
    if 200 <= status && status < 300 {
        Ok(())
    } else {
        Err(BadgeError::NetworkError(status))
    }
}

/// The HTTP method of a planned request.
#[derive(Debug, Clone, Copy, PartialEq, Eq, Structural)]
pub enum HttpMethod {
    Get,
    Post,
}

/// One fully built request: everything the transport needs, nothing more.
#[derive(Debug, Clone, PartialEq, Eq)]
pub struct RequestPlan {
    pub method: HttpMethod,
    pub url: String,
    /// The JSON body to send, in the GraphQL modes.
    pub body: Option<String>,
    /// The value of the authorization header, where the backend wants one.
    pub authorization: Option<String>,
}

/// What the plan of each backend looks like, given the target's parts and
/// the credential as plain strings.
pub open spec fn spec_plan_for(
    registry: Registry,
    owner: Seq<char>,
    repo: Seq<char>,
    package: Option<Seq<char>>,
    token: Option<Seq<char>>,
    plan: RequestPlan,
) -> bool {
    match registry {
        Registry::GitHubPackage => {
            &&& plan.method == HttpMethod::Post
            &&& plan.url@ == spec_graphql_url()
            &&& package matches Some(p) && plan.body matches Some(b) && b@ == spec_query_body(
                spec_package_query(owner, repo, p),
            )
            &&& token matches Some(t) && plan.authorization matches Some(a) && a@ == spec_bearer(t)
        },
        Registry::GitHubRelease => {
            &&& plan.method == HttpMethod::Post
            &&& plan.url@ == spec_graphql_url()
            &&& plan.body matches Some(b) && b@ == spec_query_body(spec_release_query(owner, repo))
            &&& token matches Some(t) && plan.authorization matches Some(a) && a@ == spec_bearer(t)
        },
        Registry::GitHubContainer => {
            &&& plan.method == HttpMethod::Get
            &&& package matches Some(p) && plan.url@ == spec_container_url(owner, p)
            &&& plan.body is None
            &&& token matches Some(t) && plan.authorization matches Some(a) && a@ == spec_bearer(t)
        },
        Registry::DockerHub => {
            &&& plan.method == HttpMethod::Get
            &&& plan.url@ == spec_dockerhub_url(owner, repo)
            &&& plan.body is None
            &&& plan.authorization is None
        },
        Registry::Npm => {
            &&& plan.method == HttpMethod::Get
            &&& package matches Some(p) && plan.url@ == spec_npm_url(p)
            &&& plan.body is None
            &&& plan.authorization is None
        },
    }
}

/// The package name as a sequence of characters, where there is one.
pub open spec fn spec_package_view(target: QueryTarget) -> Option<Seq<char>> {
    match target.package {
        Some(p) => Some(p@),
        None => None,
    }
}

/// The credential as a sequence of characters, where there is one.
pub open spec fn spec_token_view(token: Option<&str>) -> Option<Seq<char>> {
    match token {
        Some(t) => Some(t@),
        None => None,
    }
}

/// Builds the one request a backend is asked: `UsageError` where the target
/// lacks a part the backend requires, `ConfigError` where the credential is
/// missing on a backend that needs one, and otherwise exactly the plan
/// `spec_plan_for` describes.
pub fn build_plan(registry: Registry, target: &QueryTarget, token: Option<&str>) -> (r: Result<
    RequestPlan,
    BadgeError,
>)
    ensures
        !target.spec_valid_for(registry) ==> r == Err::<RequestPlan, BadgeError>(
            BadgeError::UsageError,
        ),
        target.spec_valid_for(registry) && registry.spec_needs_token() && token is None ==> r
            == Err::<RequestPlan, BadgeError>(BadgeError::ConfigError),
        target.spec_valid_for(registry) && (registry.spec_needs_token() ==> token is Some) ==> (
        r matches Ok(plan) && spec_plan_for(
            registry,
            target.owner@,
            target.repo@,
            spec_package_view(*target),
            spec_token_view(token),
            plan,
        )),
{
    if !target.valid_for(registry) {
        return Err(BadgeError::UsageError);
    }
    if registry.needs_token() && token.is_none() {
        return Err(BadgeError::ConfigError);
    }
    match registry {
        Registry::GitHubPackage => {
            let package = match &target.package {
                Some(p) => p,
                None => {
                    return Err(BadgeError::UsageError);
                },
            };
            let auth = match token {
                Some(t) => bearer(t),
                None => {
                    return Err(BadgeError::ConfigError);
                },
            };
            let query = package_query(target.owner.as_str(), target.repo.as_str(), package.as_str());
            Ok(
                RequestPlan {
                    method: HttpMethod::Post,
                    url: String::from_str("https://api.github.com/graphql"),
                    body: Some(query_body(query.as_str())),
                    authorization: Some(auth),
                },
            )
        },
        Registry::GitHubRelease => {
            let auth = match token {
                Some(t) => bearer(t),
                None => {
                    return Err(BadgeError::ConfigError);
                },
            };
            let query = release_query(target.owner.as_str(), target.repo.as_str());
            Ok(
                RequestPlan {
                    method: HttpMethod::Post,
                    url: String::from_str("https://api.github.com/graphql"),
                    body: Some(query_body(query.as_str())),
                    authorization: Some(auth),
                },
            )
        },
        Registry::GitHubContainer => {
            let package = match &target.package {
                Some(p) => p,
                None => {
                    return Err(BadgeError::UsageError);
                },
            };
            let auth = match token {
                Some(t) => bearer(t),
                None => {
                    return Err(BadgeError::ConfigError);
                },
            };
            let mut url = String::from_str("https://api.github.com/users/");
            url.append(target.owner.as_str());
            url.append("/packages/container/");
            url.append(package.as_str());
            proof {
                assert(url@ =~= spec_container_url(target.owner@, target.package->0@));
            }
            Ok(
                RequestPlan {
                    method: HttpMethod::Get,
                    url,
                    body: None,
                    authorization: Some(auth),
                },
            )
        },
        Registry::DockerHub => {
            let mut url = String::from_str("https://hub.docker.com/v2/repositories/");
            url.append(target.owner.as_str());
            url.append("/");
            url.append(target.repo.as_str());
            url.append("/");
            proof {
                assert(url@ =~= spec_dockerhub_url(target.owner@, target.repo@));
            }
            Ok(RequestPlan { method: HttpMethod::Get, url, body: None, authorization: None })
        },
        Registry::Npm => {
            let package = match &target.package {
                Some(p) => p,
                None => {
                    return Err(BadgeError::UsageError);
                },
            };
            let mut url = String::from_str("https://api.npmjs.org/downloads/point/last-month/");
            url.append(package.as_str());
            proof {
                assert(url@ =~= spec_npm_url(target.package->0@));
            }
            Ok(RequestPlan { method: HttpMethod::Get, url, body: None, authorization: None })
        },
    }
}

} // verus!
