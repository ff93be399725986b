//! The closed set of backends and the selector that maps a requested
//! registry name onto one of them.

use vstd::prelude::*;
use crate::error::BadgeError;
use crate::text::str_eq;

verus! {

/// One download-count backend.
///
/// GitHub splits into three modes. The name `github` selects the
/// package-statistics mode when a package name is supplied and the
/// release-count mode when none is; both ask the GraphQL endpoint, scoped by
/// repository (the user-scoped package lookup is deliberately not offered: one
/// scope, documented here, instead of two near-duplicates). The container
/// mode asks the package REST endpoint instead and is chosen by callers
/// directly; no registry name maps to it.
#[derive(Debug, Clone, Copy, PartialEq, Eq, Structural)]
pub enum Registry {
    GitHubPackage,
    GitHubRelease,
    GitHubContainer,
    DockerHub,
    Npm,
}

impl Registry {
    /// Whether the backend answers over GraphQL; the normalizer's
    /// `errors`-field policy applies only there.
    pub open spec fn spec_is_graphql(self) -> bool {
        self == Registry::GitHubPackage || self == Registry::GitHubRelease
    }

    pub fn is_graphql(&self) -> (r: bool)
        ensures
            r == self.spec_is_graphql(),
    {
        match self {
            Registry::GitHubPackage => true,
            Registry::GitHubRelease => true,
            _ => false,
        }
    }

    /// Whether the backend needs the bearer credential.
    pub open spec fn spec_needs_token(self) -> bool {
        self == Registry::GitHubPackage || self == Registry::GitHubRelease || self
            == Registry::GitHubContainer
    }

    pub fn needs_token(&self) -> (r: bool)
        ensures
            r == self.spec_needs_token(),
    {
        match self {
            Registry::DockerHub => false,
            Registry::Npm => false,
            _ => true,
        }
    }
}

/// What to count downloads for: the owner/repository/package triple.
#[derive(Debug, Clone, PartialEq, Eq)]
pub struct QueryTarget {
    pub owner: String,
    pub repo: String,
    /// Required by the package, container and npm modes; absent in the
    /// release-count mode.
    pub package: Option<String>,
}

impl QueryTarget {
    /// The invariant the chosen backend puts on the triple: a package name
    /// where the mode is keyed by one, none in the release-count mode.
    pub open spec fn spec_valid_for(self, registry: Registry) -> bool {
        match registry {
            Registry::GitHubPackage => self.package is Some,
            Registry::GitHubRelease => self.package is None,
            Registry::GitHubContainer => self.package is Some,
            Registry::DockerHub => true,
            Registry::Npm => self.package is Some,
        }
    }

    pub fn valid_for(&self, registry: Registry) -> (r: bool)
        ensures
            r == self.spec_valid_for(registry),
    {
        match registry {
            Registry::GitHubPackage => self.package.is_some(),
            Registry::GitHubRelease => self.package.is_none(),
            Registry::GitHubContainer => self.package.is_some(),
            Registry::DockerHub => true,
            Registry::Npm => self.package.is_some(),
        }
    }
}

/// Maps a requested registry name to its backend: `github` (in the mode the
/// presence of a package name asks for), `dockerhub` or `npm`, case-sensitive
/// and exact. Any other name fails with `UnknownRegistry` carrying the name;
/// nothing else is consulted.
pub fn select(name: &str, has_package: bool) -> (r: Result<Registry, BadgeError>)
    ensures
        name@ == "github"@ && has_package ==> r == Ok::<Registry, BadgeError>(
            Registry::GitHubPackage,
        ),
        name@ == "github"@ && !has_package ==> r == Ok::<Registry, BadgeError>(
            Registry::GitHubRelease,
        ),
        name@ == "dockerhub"@ ==> r == Ok::<Registry, BadgeError>(Registry::DockerHub),
        name@ == "npm"@ ==> r == Ok::<Registry, BadgeError>(Registry::Npm),
        !(name@ == "github"@ || name@ == "dockerhub"@ || name@ == "npm"@) ==> (r matches Err(e)
            && e matches BadgeError::UnknownRegistry(unknown) && unknown@ == name@),
{
    proof {
        reveal_strlit("github");
        reveal_strlit("dockerhub");
        reveal_strlit("npm");
        assert("github"@.len() == 6);
        assert("dockerhub"@.len() == 9);
        assert("npm"@.len() == 3);
        assert("github"@ != "dockerhub"@);
        assert("github"@ != "npm"@);
        assert("dockerhub"@ != "npm"@);
    }
    if str_eq(name, "github") {
        if has_package {
            Ok(Registry::GitHubPackage)
        } else {
            Ok(Registry::GitHubRelease)
        }
    } else if str_eq(name, "dockerhub") {
        Ok(Registry::DockerHub)
    } else if str_eq(name, "npm") {
        Ok(Registry::Npm)
    } else {
        Err(BadgeError::UnknownRegistry(name.to_owned()))
    }
}

} // verus!
