//! Classifying the provider's subtree-search replies.
//!
//! The provider signals "no element matched" on the same error channel as
//! genuine failures, only with a status code from the success range. The
//! searcher therefore works with a three-way outcome — a match, no match,
//! or a real error — and must never collapse an empty result into a
//! failure: an empty frame is the common case and aborting on it would
//! stop the poll loop almost immediately.

use vstd::prelude::*;
use crate::{status_is_success, ProviderError};

verus! {

/// Turns the provider's raw subtree-search reply into the three-way
/// outcome. The raw reply is what the foreign search call handed back for
/// the subtree of a root element: either a matched element, or an error
/// value. An error whose status code lies in the success range means the
/// query succeeded and nothing matched, so it becomes `Ok(None)`; any
/// other error is a genuine failure and propagates.
pub fn find_first<E>(raw: Result<E, ProviderError>) -> (r: Result<Option<E>, ProviderError>)
    ensures
        (match raw {
            Ok(e) => r == Ok::<Option<E>, ProviderError>(Some(e)),
            Err(err) => if status_is_success(err.code) {
                r == Ok::<Option<E>, ProviderError>(None::<E>)
            } else {
                r == Err::<Option<E>, ProviderError>(err)
            },
        }),
{
    match raw {
        Ok(e) => Ok(Some(e)),
        Err(err) => {
            if err.is_success_code() {
                Ok(None)
            } else {
                Err(err)
            }
        },
    }
}

} // verus!
