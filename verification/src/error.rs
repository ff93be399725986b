//! The error taxonomy of the library. `NoDownloads` is kept distinct from a
//! genuine zero count: it means a well-formed answer held no extractable
//! count, which a caller may present as "N/A" instead of misreporting zero.

use vstd::prelude::*;

verus! {

/// Every failure the library can report.
///
/// - `UsageError`: the query target lacks a part that the chosen registry
///   requires (a missing package name).
/// - `ConfigError`: the bearer credential is missing on a path that needs one.
/// - `UnknownRegistry`: the requested registry name matches no backend; the
///   name is carried for diagnostics.
/// - `NetworkError`: the transport failed or answered with a non-success HTTP
///   status; the status code is carried (`0` where the transport itself failed
///   and no status exists).
/// - `ParseError`: the response body is not well-formed JSON.
/// - `NoDownloads`: the response is well formed, but no count could be
///   extracted from it.
#[derive(Debug, Clone, PartialEq, Eq)]
pub enum BadgeError {
    UsageError,
    ConfigError,
    UnknownRegistry(String),
    NetworkError(u16),
    ParseError,
    NoDownloads,
}

impl BadgeError {
    /// A short description of the error, for logs and process output.
    pub fn describe(&self) -> (s: String)
        ensures
            match self {
                BadgeError::UnknownRegistry(name) => s@ == "unknown registry: "@ + name@,
                _ => s@.len() > 0,
            },
    {
        proof {
            reveal_strlit("usage error: the registry requires a part that is absent");
            reveal_strlit("configuration error: the bearer credential is missing");
            reveal_strlit("network error, HTTP status ");
            reveal_strlit("parse error: the response body is not JSON");
            reveal_strlit("no download data available");
        }
        match self {
            BadgeError::UsageError => String::from_str(
                "usage error: the registry requires a part that is absent",
            ),
            BadgeError::ConfigError => String::from_str(
                "configuration error: the bearer credential is missing",
            ),
            BadgeError::UnknownRegistry(name) => {
                let mut s = String::from_str("unknown registry: ");
                s.append(name.as_str());
                s
            },
            BadgeError::NetworkError(code) => {
                let mut s = String::from_str("network error, HTTP status ");
                let digits = crate::text::u64_to_decimal(*code as u64);
                s.append(digits.as_str());
                proof {
                    assert(s@.len() > 0);
                }
                s
            },
            BadgeError::ParseError => String::from_str(
                "parse error: the response body is not JSON",
            ),
            BadgeError::NoDownloads => String::from_str("no download data available"),
        }
    }
}

} // verus!
