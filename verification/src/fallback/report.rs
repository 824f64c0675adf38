//! The progress lines a run prints for one alias, one per event worth
//! telling: a skipped profile, a prompt saved to the workspace, a call,
//! a retry, a dead key and its deletion, an alias given up, a dry-run
//! preview.
use vstd::prelude::*;
use super::ErrorClass;
use crate::text::{decimal, push_decimal};

verus! {

pub open spec fn skipped_line_spec(alias: Seq<char>, profile: Seq<char>) -> Seq<char> {
    "["@ + alias + "] profile="@ + profile + " \u{2192} SKIPPED (profile '"@ + profile
        + "' not found)"@
}

/// A chain entry that names no stored profile is skipped.
pub fn skipped_line(alias: &str, profile: &str) -> (r: String)
    ensures
        r@ == skipped_line_spec(alias@, profile@),
{
    let mut s = String::from_str("[");
    s.append(alias);
    s.append("] profile=");
    s.append(profile);
    s.append(" \u{2192} SKIPPED (profile '");
    s.append(profile);
    s.append("' not found)");
    s
}

pub open spec fn wrote_prompt_line_spec(alias: Seq<char>, phase_tag: Seq<char>, bytes: nat) -> Seq<
    char,
> {
    "["@ + alias + "] phase="@ + phase_tag + " \u{2192} wrote prompt ("@ + decimal(bytes)
        + " bytes) to .a2a/_prompt.md"@
}

/// A prompt too large for the command line was saved in the workspace.
pub fn wrote_prompt_line(alias: &str, phase_tag: &str, bytes: u64) -> (r: String)
    ensures
        r@ == wrote_prompt_line_spec(alias@, phase_tag@, bytes as nat),
{
    let mut s = String::from_str("[");
    s.append(alias);
    s.append("] phase=");
    s.append(phase_tag);
    s.append(" \u{2192} wrote prompt (");
    push_decimal(&mut s, bytes);
    s.append(" bytes) to .a2a/_prompt.md");
    s
}

pub open spec fn calling_line_spec(
    alias: Seq<char>,
    profile: Seq<char>,
    phase_tag: Seq<char>,
    resume: Option<Seq<char>>,
) -> Seq<char> {
    "["@ + alias + "] profile="@ + profile + " \u{2192} calling cursor-agent (phase="@ + phase_tag
        + match resume {
        Some(id) => ", --resume "@ + id,
        None => seq![],
    } + ")"@
}

/// A call is about to start.
pub fn calling_line(alias: &str, profile: &str, phase_tag: &str, resume: Option<&str>) -> (r: String)
    ensures
        r@ == calling_line_spec(
            alias@,
            profile@,
            phase_tag@,
            match resume {
                Some(id) => Some(id@),
                None => None,
            },
        ),
{
    let mut s = String::from_str("[");
    s.append(alias);
    s.append("] profile=");
    s.append(profile);
    s.append(" \u{2192} calling cursor-agent (phase=");
    s.append(phase_tag);
    match resume {
        Some(id) => {
            s.append(", --resume ");
            s.append(id);
        },
        None => {},
    }
    s.append(")");
    s
}

pub open spec fn retry_line_spec(alias: Seq<char>, profile: Seq<char>, ms: nat, attempt: nat) -> Seq<
    char,
> {
    "["@ + alias + "] profile="@ + profile + " \u{2192} transient error; retrying after "@
        + decimal(ms) + "ms (attempt "@ + decimal(attempt) + "/3)"@
}

/// A transient failure: the same profile is tried again after `ms`.
pub fn retry_line(alias: &str, profile: &str, ms: u64, attempt: u64) -> (r: String)
    ensures
        r@ == retry_line_spec(alias@, profile@, ms as nat, attempt as nat),
{
    let mut s = String::from_str("[");
    s.append(alias);
    s.append("] profile=");
    s.append(profile);
    s.append(" \u{2192} transient error; retrying after ");
    push_decimal(&mut s, ms);
    s.append("ms (attempt ");
    push_decimal(&mut s, attempt);
    s.append("/3)");
    s
}

pub open spec fn key_dead_line_spec(alias: Seq<char>, profile: Seq<char>) -> Seq<char> {
    "["@ + alias + "] profile="@ + profile
        + " \u{2192} KeyDead detected; deleting this profile from credentials.db. Original error:"@
}

/// A dead key; the excerpt of its error follows, indented.
pub fn key_dead_line(alias: &str, profile: &str) -> (r: String)
    ensures
        r@ == key_dead_line_spec(alias@, profile@),
{
    let mut s = String::from_str("[");
    s.append(alias);
    s.append("] profile=");
    s.append(profile);
    s.append(
        " \u{2192} KeyDead detected; deleting this profile from credentials.db. Original error:",
    );
    s
}

pub open spec fn deleted_line_spec(alias: Seq<char>, profile: Seq<char>) -> Seq<char> {
    "["@ + alias + "] profile '"@ + profile + "' deleted; advancing fallback chain"@
}

pub fn deleted_line(alias: &str, profile: &str) -> (r: String)
    ensures
        r@ == deleted_line_spec(alias@, profile@),
{
    let mut s = String::from_str("[");
    s.append(alias);
    s.append("] profile '");
    s.append(profile);
    s.append("' deleted; advancing fallback chain");
    s
}

pub open spec fn drained_line_spec(alias: Seq<char>) -> Seq<char> {
    "["@ + alias + "] credentials store is now empty; aborting this alias and signalling peers"@
}

/// The dead key was the last one: the peers are told to stop.
pub fn drained_line(alias: &str) -> (r: String)
    ensures
        r@ == drained_line_spec(alias@),
{
    let mut s = String::from_str("[");
    s.append(alias);
    s.append("] credentials store is now empty; aborting this alias and signalling peers");
    s
}

pub open spec fn give_up_line_spec(alias: Seq<char>, profile: Seq<char>, c: ErrorClass) -> Seq<
    char,
> {
    "["@ + alias + "] profile="@ + profile + match c {
        ErrorClass::ModelUnavailable =>
            " \u{2192} model not available on this account (ModelUnavailable); skipping this model alias"@,
        ErrorClass::Transient =>
            " \u{2192} Transient retry budget exhausted; skipping this model alias"@,
        _ => " \u{2192} unrecognised error (Unknown); skipping this model alias"@,
    }
}

/// The alias is given up on `profile`: the model is not available there,
/// the error is not recognised, or the transient retries ran out.
pub fn give_up_line(alias: &str, profile: &str, c: ErrorClass) -> (r: String)
    ensures
        r@ == give_up_line_spec(alias@, profile@, c),
{
    let mut s = String::from_str("[");
    s.append(alias);
    s.append("] profile=");
    s.append(profile);
    match c {
        ErrorClass::ModelUnavailable => s.append(
            " \u{2192} model not available on this account (ModelUnavailable); skipping this model alias",
        ),
        ErrorClass::Transient => s.append(
            " \u{2192} Transient retry budget exhausted; skipping this model alias",
        ),
        _ => s.append(" \u{2192} unrecognised error (Unknown); skipping this model alias"),
    }
    s
}

pub open spec fn dry_run_line_spec(
    alias: Seq<char>,
    profile: Seq<char>,
    found: bool,
    command: Seq<char>,
) -> Seq<char> {
    "["@ + alias + "] profile="@ + profile + " ("@ + (if found {
        "ok"@
    } else {
        "<NOT FOUND>"@
    }) + ") \u{2192} DRY-RUN: "@ + command
}

/// A dry run previews the command for the first chain entry.
pub fn dry_run_line(alias: &str, profile: &str, found: bool, command: &str) -> (r: String)
    ensures
        r@ == dry_run_line_spec(alias@, profile@, found, command@),
{
    let mut s = String::from_str("[");
    s.append(alias);
    s.append("] profile=");
    s.append(profile);
    s.append(" (");
    if found {
        s.append("ok");
    } else {
        s.append("<NOT FOUND>");
    }
    s.append(") \u{2192} DRY-RUN: ");
    s.append(command);
    s
}

} // verus!
