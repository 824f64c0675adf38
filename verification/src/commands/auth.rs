//! `a2a auth` subcommands: add / list / use / show / remove / update.
use vstd::prelude::*;

verus! {

pub struct AuthArgs {
    pub command: AuthCommand,
}

pub enum AuthCommand {
    /// Add a new profile; the name is derived from the key when omitted.
    Add {
        name: Option<String>,
        note: Option<String>,
        /// Read the key from stdin (first non-empty line).
        from_stdin: bool,
    },
    /// List all profiles.
    List,
    /// Set the default profile.
    Use { name: String },
    /// Show the masked key.
    Show { name: String },
    /// Remove a profile.
    Remove { name: String, yes: bool },
    /// Replace a profile's key.
    Update { name: String, from_stdin: bool },
}

} // verus!
