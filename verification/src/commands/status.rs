//! `a2a status`: default profile and PATH check.
use vstd::prelude::*;

verus! {

/// `a2a status` takes no arguments.
pub struct StatusArgs {}

} // verus!
