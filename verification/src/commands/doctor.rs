//! `a2a doctor`: environment health check.
use vstd::prelude::*;

verus! {

/// `a2a doctor` takes no arguments.
pub struct DoctorArgs {}

} // verus!
