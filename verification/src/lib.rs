//! Decision logic for a desktop text-inspection poller.
//!
//! The library holds the verified core of a utility that watches the
//! accessibility tree for the element under keyboard focus, filters its
//! subtree with boolean property conditions, and extracts the current text
//! selection and caret. All calls into the accessibility provider itself are
//! foreign and live outside this crate; the library receives their raw
//! results as plain values and makes every decision about them.

use vstd::prelude::*;

pub mod condition;
pub mod extract;
pub mod poll;
pub mod report;
pub mod search;

verus! {

/// Milliseconds to wait once at startup, before the first cycle, so that
/// the foreground window can stabilize.
pub const STARTUP_DELAY_MS: u64 = 2000;

/// Milliseconds to wait between poll cycles.
pub const POLL_INTERVAL_MS: u64 = 200;

/// The bound on characters materialized from any one text range: large
/// enough to capture all practical content, finite so that no pathological
/// range produces an unbounded read.
pub const MAX_CHARS_PER_RANGE: usize = 1000000;

/// Status code returned by the accessibility provider. Non-negative codes
/// signal success, negative ones a genuine failure.
pub open spec fn status_is_success(code: i32) -> bool {
    code >= 0
}

/// An error reported by the accessibility provider, carrying its raw
/// status code.
#[derive(Clone, Copy, PartialEq, Eq, Structural, Debug)]
pub struct ProviderError {
    pub code: i32,
}

impl ProviderError {
    /// Whether this error's status code is in the success range. The
    /// provider abuses the error channel to report an empty search result,
    /// so a "successful error" must be told apart from a real failure.
    pub fn is_success_code(&self) -> (r: bool)
        ensures
            r == status_is_success(self.code),
    {
        self.code >= 0
    }
}

} // verus!
