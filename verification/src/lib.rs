//! Configuration and model-selection layer for a text-embedding session.
//!
//! The heavy work — model download, caching, tokenization, inference — is the
//! embedding provider's. This crate holds the logic that surrounds it: the
//! closed set of supported model selectors with their provider identifiers,
//! and the defaulting of session options.

use vstd::prelude::*;

pub mod model;
pub mod session;

verus! {

/// Adds two machine integers. The exact sum must fit in `i32`.
pub fn sum(a: i32, b: i32) -> (r: i32)
    requires
        i32::MIN <= a + b <= i32::MAX,
    ensures
        r == a + b,
{
    a + b
}

} // verus!
