//! Small shared pieces.
use vstd::prelude::*;

pub mod file_lock;

verus! {

} // verus!
