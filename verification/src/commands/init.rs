//! `a2a init`: install the templates into a project.
use vstd::prelude::*;

verus! {

pub struct InitArgs {
    /// Project root directory; the working directory when omitted.
    pub path: Option<String>,
    /// Overwrite existing live template files. The staged copies under
    /// `<project>/.a2a/template/` are always overwritten.
    pub force: bool,
}

} // verus!
