//! `a2a list`: past consultations of a project.
use vstd::prelude::*;

verus! {

pub struct ListArgs {
    /// The project root; defaults to the project around the working
    /// directory.
    pub project: Option<String>,
}

} // verus!
