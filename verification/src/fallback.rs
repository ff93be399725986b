//! The caller-level fallback policy: what to put on the badge when
//! normalization found no count. The choice is one explicit enumeration,
//! not normalizer behaviour — a `NoDownloads` outcome stays distinct from a
//! genuine zero all the way here.

use vstd::prelude::*;
use crate::error::BadgeError;
use crate::text::{spec_decimal, u64_to_decimal};

verus! {

/// What a caller does when no count could be extracted.
#[derive(Debug, Clone, Copy, PartialEq, Eq, Structural)]
pub enum FallbackPolicy {
    /// Give up: the failure surfaces as is.
    Abort,
    /// Show a zero count, misreporting "no data" as "no activity".
    DefaultZero,
    /// Show "N/A", keeping "no data" visibly apart from a zero count.
    SubstituteNa,
}

/// The message the badge shows for a normalization outcome under a policy:
/// the decimal count on success; on `NoDownloads`, whatever the policy
/// says; any other failure passes through untouched.
pub open spec fn spec_badge_message(
    outcome: Result<u64, BadgeError>,
    policy: FallbackPolicy,
) -> Result<Seq<char>, BadgeError> {
    match outcome {
        Ok(n) => Ok(spec_decimal(n)),
        Err(BadgeError::NoDownloads) => match policy {
            FallbackPolicy::Abort => Err(BadgeError::NoDownloads),
            FallbackPolicy::DefaultZero => Ok(spec_decimal(0)),
            FallbackPolicy::SubstituteNa => Ok("N/A"@),
        },
        Err(e) => Err(e),
    }
}

/// Turns a normalization outcome into the badge message, exactly as
/// `spec_badge_message` says.
pub fn badge_message(outcome: Result<u64, BadgeError>, policy: FallbackPolicy) -> (r: Result<
    String,
    BadgeError,
>)
    ensures
        match r {
            Ok(s) => spec_badge_message(outcome, policy) matches Ok(t) && s@ == t,
            Err(e) => spec_badge_message(outcome, policy) == Err::<Seq<char>, BadgeError>(e),
        },
{
    match outcome {
        Ok(n) => Ok(u64_to_decimal(n)),
        Err(BadgeError::NoDownloads) => match policy {
            FallbackPolicy::Abort => Err(BadgeError::NoDownloads),
            FallbackPolicy::DefaultZero => Ok(u64_to_decimal(0)),
            FallbackPolicy::SubstituteNa => Ok(String::from_str("N/A")),
        },
        Err(e) => Err(e),
    }
}

} // verus!
