//! The request body handed to the bio publisher: a partial profile update.
//! A field left as `None` is meant to be omitted from the wire payload
//! entirely, so the remote service leaves it unmodified.

use vstd::prelude::*;

verus! {

/// A partial profile update for the bio publisher.
#[derive(Debug)]
pub struct ProfileRequest {
    pub bio: Option<String>,
    pub accent_color: Option<u64>,
    pub pronouns: Option<String>,
    pub profile_effect: Option<u64>,
}

impl Default for ProfileRequest {
    /// The empty update: every field unset, so nothing would be modified.
    fn default() -> (r: ProfileRequest)
        ensures
            r.bio is None,
            r.accent_color is None,
            r.pronouns is None,
            r.profile_effect is None,
    {
        ProfileRequest { bio: None, accent_color: None, pronouns: None, profile_effect: None }
    }
}

} // verus!
