//! Library for download-count badges: selecting a package registry,
//! building the request for it, normalizing the registry's JSON answer
//! into one non-negative count, and rendering the count as a fixed-geometry
//! vector badge.

pub mod badge;
pub mod error;
pub mod fallback;
pub mod json;
pub mod normalize;
pub mod registry;
pub mod request;
pub mod text;
