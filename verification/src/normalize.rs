//! The response normalizer: one non-negative count out of each backend's
//! own JSON shape, with the documented fallback when the shape does not
//! hold.
//!
//! The policy, stated once: a blank body is `NoDownloads` before any parsing;
//! a body that is not JSON is `ParseError`; a GraphQL answer carrying a
//! top-level `errors` field is `NoDownloads` whatever else it carries; a
//! missing path segment, an empty node list, or a terminal value that is not
//! a non-negative 64-bit integer is `NoDownloads` — never silently zero,
//! because "no such package" and "zero downloads" must stay distinguishable.

use vstd::prelude::*;
use crate::error::BadgeError;
use crate::json::{JsonValue, parse_json, spec_parse_json, spec_get, spec_as_u64};
use crate::registry::Registry;

verus! {

/// JSON's whitespace characters.
pub open spec fn is_ws_char(c: char) -> bool {
    c == ' ' || c == '\t' || c == '\n' || c == '\r'
}

/// A body that is empty or whitespace-only.
pub open spec fn spec_is_blank(s: Seq<char>) -> bool {
    forall|i: int| 0 <= i < s.len() ==> is_ws_char(s[i])
}

/// Whether the body is empty or whitespace-only, exactly as `spec_is_blank`
/// says.
pub fn is_blank(s: &str) -> (r: bool)
    ensures
        r == spec_is_blank(s@),
{
    let n = s.unicode_len();
    let mut i: usize = 0;
    while i < n
        invariant
            i <= n,
            n == s@.len(),
            forall|j: int| 0 <= j < i ==> is_ws_char(s@[j]),
        decreases n - i,
    {
        let c = s.get_char(i);
        if !(c == ' ' || c == '\t' || c == '\n' || c == '\r') {
            return false;
        }
        i += 1;
    }
    true
}

/// The count a terminal path value yields: present and a non-negative
/// 64-bit integer, or nothing.
pub open spec fn spec_count_at(v: Option<JsonValue>) -> Option<u64> {
    match v {
        Some(x) => spec_as_u64(x),
        None => None,
    }
}

/// Extraction path of the GraphQL package mode:
/// `data.repository.packages.nodes[0].statistics.downloadsTotalCount`.
pub open spec fn spec_github_package_count(doc: JsonValue) -> Option<u64> {
    match spec_get(doc, "data"@) {
        Some(d) => match spec_get(d, "repository"@) {
            Some(rep) => match spec_get(rep, "packages"@) {
                Some(p) => match spec_get(p, "nodes"@) {
                    Some(JsonValue::Array(nodes)) => if nodes@.len() > 0 {
                        match spec_get(nodes@[0], "statistics"@) {
                            Some(st) => spec_count_at(spec_get(st, "downloadsTotalCount"@)),
                            None => None,
                        }
                    } else {
                        None
                    },
                    _ => None,
                },
                None => None,
            },
            None => None,
        },
        None => None,
    }
}

/// Extraction path of the GraphQL release mode:
/// `data.repository.releases.totalCount`.
pub open spec fn spec_github_release_count(doc: JsonValue) -> Option<u64> {
    match spec_get(doc, "data"@) {
        Some(d) => match spec_get(d, "repository"@) {
            Some(rep) => match spec_get(rep, "releases"@) {
                Some(rel) => spec_count_at(spec_get(rel, "totalCount"@)),
                None => None,
            },
            None => None,
        },
        None => None,
    }
}

/// The fixed extraction path of each backend, as a function of the parsed
/// document.
pub open spec fn spec_extract(registry: Registry, doc: JsonValue) -> Option<u64> {
    match registry {
        Registry::GitHubPackage => spec_github_package_count(doc),
        Registry::GitHubRelease => spec_github_release_count(doc),
        Registry::GitHubContainer => spec_count_at(spec_get(doc, "downloads"@)),
        Registry::DockerHub => spec_count_at(spec_get(doc, "pull_count"@)),
        Registry::Npm => spec_count_at(spec_get(doc, "downloads"@)),
    }
}

/// What normalization makes of a parsed document.
pub open spec fn spec_normalize_doc(registry: Registry, doc: JsonValue) -> Result<u64, BadgeError> {
    if registry.spec_is_graphql() && spec_get(doc, "errors"@) is Some {
        Err(BadgeError::NoDownloads)
    } else {
        match spec_extract(registry, doc) {
            Some(n) => Ok(n),
            None => Err(BadgeError::NoDownloads),
        }
    }
}

/// What normalization makes of a raw body.
pub open spec fn spec_normalize(registry: Registry, body: Seq<char>) -> Result<u64, BadgeError> {
    if spec_is_blank(body) {
        Err(BadgeError::NoDownloads)
    } else {
        match spec_parse_json(body) {
            None => Err(BadgeError::ParseError),
            Some(doc) => spec_normalize_doc(registry, doc),
        }
    }
}

fn github_package_count(doc: &JsonValue) -> (r: Option<u64>)
    ensures
        r == spec_github_package_count(*doc),
{
    let d = match doc.get("data") {
        Some(v) => v,
        None => return None,
    };
    let rep = match d.get("repository") {
        Some(v) => v,
        None => return None,
    };
    let p = match rep.get("packages") {
        Some(v) => v,
        None => return None,
    };
    let nodes_value = match p.get("nodes") {
        Some(v) => v,
        None => return None,
    };
    let nodes = match nodes_value {
        JsonValue::Array(a) => a,
        _ => return None,
    };
    if nodes.len() == 0 {
        return None;
    }
    let st = match nodes[0].get("statistics") {
        Some(v) => v,
        None => return None,
    };
    match st.get("downloadsTotalCount") {
        Some(v) => v.as_count(),
        None => None,
    }
}

fn github_release_count(doc: &JsonValue) -> (r: Option<u64>)
    ensures
        r == spec_github_release_count(*doc),
{
    let d = match doc.get("data") {
        Some(v) => v,
        None => return None,
    };
    let rep = match d.get("repository") {
        Some(v) => v,
        None => return None,
    };
    let rel = match rep.get("releases") {
        Some(v) => v,
        None => return None,
    };
    match rel.get("totalCount") {
        Some(v) => v.as_count(),
        None => None,
    }
}

fn flat_count(doc: &JsonValue, key: &str) -> (r: Option<u64>)
    ensures
        r == spec_count_at(spec_get(*doc, key@)),
{
    match doc.get(key) {
        Some(v) => v.as_count(),
        None => None,
    }
}

/// The count the backend's extraction path finds in the parsed document,
/// exactly as `spec_extract` says.
pub fn extract(registry: Registry, doc: &JsonValue) -> (r: Option<u64>)
    ensures
        r == spec_extract(registry, *doc),
{
    match registry {
        Registry::GitHubPackage => github_package_count(doc),
        Registry::GitHubRelease => github_release_count(doc),
        Registry::GitHubContainer => flat_count(doc, "downloads"),
        Registry::DockerHub => flat_count(doc, "pull_count"),
        Registry::Npm => flat_count(doc, "downloads"),
    }
}

/// Normalizes an already-parsed document: the GraphQL `errors` policy first,
/// then the backend's extraction path; a count if one is there, otherwise
/// `NoDownloads`.
pub fn normalize_document(registry: Registry, doc: &JsonValue) -> (r: Result<u64, BadgeError>)
    ensures
        r == spec_normalize_doc(registry, *doc),
{
    if registry.is_graphql() && doc.has_key("errors") {
        return Err(BadgeError::NoDownloads);
    }
    match extract(registry, doc) {
        Some(n) => Ok(n),
        None => Err(BadgeError::NoDownloads),
    }
}

/// Normalizes a raw response body: a blank body is `NoDownloads` before any
/// parsing; a body that is not JSON is `ParseError`; the rest is
/// `normalize_document` on the parsed document.
pub fn normalize(registry: Registry, body: &str) -> (r: Result<u64, BadgeError>)
    ensures
        r == spec_normalize(registry, body@),
        spec_is_blank(body@) ==> r == Err::<u64, BadgeError>(BadgeError::NoDownloads),
{
    if is_blank(body) {
        return Err(BadgeError::NoDownloads);
    }
    match parse_json(body) {
        None => Err(BadgeError::ParseError),
        Some(doc) => normalize_document(registry, &doc),
    }
}

/// A blank body yields `NoDownloads` before any parsing: whatever a parser
/// would say about it, the outcome is fixed already.
pub proof fn lemma_blank_body_is_no_downloads(registry: Registry, body: Seq<char>)
    requires
        spec_is_blank(body),
    ensures
        spec_normalize(registry, body) == Err::<u64, BadgeError>(BadgeError::NoDownloads),
{
}

/// A GraphQL answer whose first package node carries a total download count
/// yields exactly that count.
pub proof fn lemma_package_count_extracted(
    doc: JsonValue,
    d: JsonValue,
    rep: JsonValue,
    p: JsonValue,
    nodes: Vec<JsonValue>,
    st: JsonValue,
    n: u64,
)
    requires
        spec_get(doc, "errors"@) is None,
        spec_get(doc, "data"@) == Some(d),
        spec_get(d, "repository"@) == Some(rep),
        spec_get(rep, "packages"@) == Some(p),
        spec_get(p, "nodes"@) == Some(JsonValue::Array(nodes)),
        nodes@.len() > 0,
        spec_get(nodes@[0], "statistics"@) == Some(st),
        spec_get(st, "downloadsTotalCount"@) == Some(JsonValue::UInt(n)),
    ensures
        spec_normalize_doc(Registry::GitHubPackage, doc) == Ok::<u64, BadgeError>(n),
{
}

/// A GraphQL answer whose node list is empty yields `NoDownloads` — never a
/// zero count.
pub proof fn lemma_empty_nodes_no_downloads(
    doc: JsonValue,
    d: JsonValue,
    rep: JsonValue,
    p: JsonValue,
    nodes: Vec<JsonValue>,
)
    requires
        spec_get(doc, "errors"@) is None,
        spec_get(doc, "data"@) == Some(d),
        spec_get(d, "repository"@) == Some(rep),
        spec_get(rep, "packages"@) == Some(p),
        spec_get(p, "nodes"@) == Some(JsonValue::Array(nodes)),
        nodes@.len() == 0,
    ensures
        spec_normalize_doc(Registry::GitHubPackage, doc) == Err::<u64, BadgeError>(
            BadgeError::NoDownloads,
        ),
        spec_normalize_doc(Registry::GitHubPackage, doc) != Ok::<u64, BadgeError>(0),
{
}

/// A top-level `errors` field in a GraphQL answer yields `NoDownloads`,
/// whatever data the answer also carries.
pub proof fn lemma_graphql_errors_win(registry: Registry, doc: JsonValue)
    requires
        registry.spec_is_graphql(),
        spec_get(doc, "errors"@) is Some,
    ensures
        spec_normalize_doc(registry, doc) == Err::<u64, BadgeError>(BadgeError::NoDownloads),
{
}

/// A DockerHub answer with a numeric `pull_count` yields exactly that count.
pub proof fn lemma_dockerhub_pull_count(doc: JsonValue, n: u64)
    requires
        spec_get(doc, "pull_count"@) == Some(JsonValue::UInt(n)),
    ensures
        spec_normalize_doc(Registry::DockerHub, doc) == Ok::<u64, BadgeError>(n),
{
}

/// A DockerHub answer whose `pull_count` is present but not a non-negative
/// 64-bit integer yields `NoDownloads`.
pub proof fn lemma_dockerhub_wrong_type(doc: JsonValue, v: JsonValue)
    requires
        spec_get(doc, "pull_count"@) == Some(v),
        !(v is UInt),
    ensures
        spec_normalize_doc(Registry::DockerHub, doc) == Err::<u64, BadgeError>(
            BadgeError::NoDownloads,
        ),
{
}

} // verus!
