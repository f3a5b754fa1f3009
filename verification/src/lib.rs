//! A verified core for a bio-updating background service: it resolves
//! substitution keys against a fetched player profile, renders a template
//! schema by replacing `{key}` placeholders, and drives a failure-isolated
//! update loop as a pure state machine.

pub mod keys;
pub mod profile;
pub mod publish;
pub mod render;
pub mod text;
pub mod update;

use vstd::prelude::*;

verus! {

/// The character limit for the published bio.
pub const BIO_CHAR_LIMIT: usize = 190;

} // verus!
