//! The identity decision made before a mutating call. It is a placeholder for an
//! outside decision: every pair is accepted and no identity is known.

use vstd::prelude::*;

verus! {

/// Confirms that an external identity belongs to a user id.
pub struct CeloVerifier {}

impl CeloVerifier {
    pub fn new() -> (r: CeloVerifier) {
        CeloVerifier {}
    }

    /// Whether `celo_uid` belongs to `user_id`; this placeholder accepts
    /// every pair.
    pub fn verify_uid(&self, celo_uid: &str, user_id: &str) -> (r: bool)
        ensures
            r,
    {
        true
    }

    /// The external identity bound to `user_id`; this placeholder knows none.
    pub fn get_uid(&self, user_id: &str) -> (r: Option<String>)
        ensures
            r is None,
    {
        None
    }
}

} // verus!
