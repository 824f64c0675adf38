//! `a2a reset`: clear user-global state to a known baseline.
use vstd::prelude::*;
use crate::text::decimal;

verus! {

pub struct ResetArgs {
    pub command: ResetCommand,
}

pub enum ResetCommand {
    /// Remove all model aliases; profiles are untouched.
    Models { yes: bool },
    /// Delete the credential database entirely.
    Credentials { yes: bool },
}

/// The confirmation question before removing `count` aliases.
pub fn reset_models_prompt(count: u64) -> (s: String)
    ensures
        s@ == "Remove "@ + decimal(count as nat) + " model alias(es) from ~/.a2a/credentials.db?"@,
{
    let mut s = String::from_str("Remove ");
    crate::text::push_decimal(&mut s, count);
    s.append(" model alias(es) from ~/.a2a/credentials.db?");
    s
}

/// The confirmation question before deleting the database at `db_path`.
pub fn reset_credentials_prompt(db_path: &str) -> (s: String)
    ensures
        s@ == "Delete "@ + db_path@
            + " and remove ALL stored API keys + model aliases? This cannot be undone."@,
{
    let mut s = String::from_str("Delete ");
    s.append(db_path);
    s.append(" and remove ALL stored API keys + model aliases? This cannot be undone.");
    s
}

} // verus!
