//! The rows of the credential store (`~/.a2a/credentials.db`): profiles
//! (name + plaintext API key), model aliases, and the `meta` key
//! `default_profile`. Opening the SQLite file and running queries is the
//! program's part; the rules about the rows are here.
use vstd::prelude::*;
use crate::text::{chars_of, str_eq};

verus! {

/// One registered API key.
#[derive(Debug, Clone)]
pub struct Profile {
    pub name: String,
    pub api_key: String,
    /// Unix seconds at insert time.
    pub created_at: i64,
    pub last_used_at: Option<i64>,
    pub note: Option<String>,
}

/// Outcome of inserting an alias that may already exist: the table is
/// unchanged on `AlreadyExists`.
#[derive(Debug, Clone, Copy, PartialEq, Eq, Structural)]
pub enum TryInsertOutcome {
    Inserted,
    AlreadyExists,
}

/// A user-global model alias.
#[derive(Debug, Clone)]
pub struct ModelAlias {
    pub alias: String,
    /// Value passed to `cursor-agent --model`.
    pub cursor_model: String,
    /// `"agent"` (default) or `"plan"`.
    pub default_mode: String,
    /// Display-only note.
    pub thinking_hint: Option<String>,
    /// Display-only label.
    pub description: Option<String>,
    /// Insert time; the earliest alias is the default for `ask`.
    pub created_at: i64,
}

/// The code of `c` with ASCII upper case folded to lower case.
pub open spec fn ascii_lower(c: char) -> u32 {
    if 'A' <= c && c <= 'Z' {
        ((c as u32) + 32) as u32
    } else {
        c as u32
    }
}

/// ASCII case-insensitive equality, as `str::eq_ignore_ascii_case`.
pub open spec fn eq_ignore_ascii_case(a: Seq<char>, b: Seq<char>) -> bool {
    a.len() == b.len() && forall|i: int| 0 <= i < a.len() ==> ascii_lower(#[trigger] a[i]) == ascii_lower(b[i])
}

fn lower_char(c: char) -> (r: u32)
    ensures
        r == ascii_lower(c),
{
    if 'A' <= c && c <= 'Z' {
        c as u32 + 32
    } else {
        c as u32
    }
}

pub fn str_eq_ignore_ascii_case(a: &str, b: &str) -> (r: bool)
    ensures
        r == eq_ignore_ascii_case(a@, b@),
{
    let va = chars_of(a);
    let vb = chars_of(b);
    if va.len() != vb.len() {
        return false;
    }
    let mut i: usize = 0;
    while i < va.len()
        invariant
            i <= va@.len(),
            va@.len() == vb@.len(),
            va@ == a@,
            vb@ == b@,
            forall|j: int| 0 <= j < i ==> ascii_lower(#[trigger] va@[j]) == ascii_lower(vb@[j]),
        decreases va@.len() - i,
    {
        if lower_char(va[i]) != lower_char(vb[i]) {
            return false;
        }
        i += 1;
    }
    true
}

/// Columns of a profiles table written by an older a2a (encrypted keys,
/// disable timers): such a store cannot be read and is backed up.
pub open spec fn legacy_column(name: Seq<char>, ty: Seq<char>) -> bool {
    ||| name == "api_key"@ && eq_ignore_ascii_case(ty, "BLOB"@)
    ||| name == "encrypted"@
    ||| name == "salt"@
    ||| name == "nonce"@
    ||| name == "disabled_until"@
    ||| name == "api_key_hash"@
}

/// Whether the `profiles` table, given as `(name, type)` column pairs,
/// has the shape of an older store.
pub fn needs_legacy_backup(table_exists: bool, columns: &Vec<(String, String)>) -> (r: bool)
    ensures
        r == (table_exists && exists|i: int|
            0 <= i < columns@.len() && legacy_column(
                (#[trigger] columns@[i]).0@,
                columns@[i].1@,
            )),
{
    if !table_exists {
        return false;
    }
    let mut i: usize = 0;
    while i < columns.len()
        invariant
            i <= columns@.len(),
            table_exists,
            forall|j: int| 0 <= j < i ==> !legacy_column((#[trigger] columns@[j]).0@, columns@[j].1@),
        decreases columns@.len() - i,
    {
        let name = columns[i].0.as_str();
        let ty = columns[i].1.as_str();
        proof {
            reveal_strlit("api_key");
            reveal_strlit("BLOB");
            reveal_strlit("encrypted");
            reveal_strlit("salt");
            reveal_strlit("nonce");
            reveal_strlit("disabled_until");
            reveal_strlit("api_key_hash");
        }
        let hit = (str_eq(name, "api_key") && str_eq_ignore_ascii_case(ty, "BLOB")) || str_eq(
            name,
            "encrypted",
        ) || str_eq(name, "salt") || str_eq(name, "nonce") || str_eq(name, "disabled_until")
            || str_eq(name, "api_key_hash");
        if hit {
            assert(legacy_column(columns@[i as int].0@, columns@[i as int].1@));
            return true;
        }
        i += 1;
    }
    false
}

} // verus!
