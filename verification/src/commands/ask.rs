//! `a2a ask`: invoke one or more models in parallel against one prompt.
use vstd::prelude::*;
use crate::{A2aError, ErrView, other_err, user_err};
use crate::runner::AskRequest;

verus! {

pub struct AskArgs {
    /// Topic slug (used as directory name under `consultations/`).
    pub topic: String,
    /// Path to the prompt file (markdown with optional frontmatter).
    pub prompt_file: String,
    /// Model aliases; when omitted the first-added alias runs.
    pub models: Option<Vec<String>>,
    /// Profile chain; when omitted the default profile runs alone.
    pub profiles: Option<Vec<String>>,
    /// `agent` or `plan` for every alias.
    pub mode: Option<String>,
    /// `enabled` or `disabled`, passed to cursor-agent.
    pub sandbox: Option<String>,
    /// Print the cursor-agent commands without running them.
    pub dry_run: bool,
    /// Estimate token / quota cost without running models.
    pub budget_only: bool,
    /// Do not prepend the read-only directive.
    pub no_readonly_prefix: bool,
    /// Record character counts in `meta.toml`.
    pub log_budget: bool,
}

pub open spec fn prompt_missing_msg(display: Seq<char>, cause: Seq<char>) -> Seq<char> {
    "prompt file not found: "@ + display + ": "@ + cause
}

pub open spec fn not_regular_msg(path: Seq<char>) -> Seq<char> {
    "prompt file is not a regular file: "@ + path
}

/// The prompt file as the run uses it: `canonical` is its canonical
/// path, or the reason it could not be resolved; `is_file` says whether
/// the resolved path is a regular file.
pub fn check_prompt_file(display: &str, canonical: Result<String, String>, is_file: bool) -> (r: Result<
    String,
    A2aError,
>)
    ensures
        match canonical {
            Err(cause) => r matches Err(e) && e@ == ErrView::Other(
                prompt_missing_msg(display@, cause@),
            ),
            Ok(p) => if is_file {
                r matches Ok(x) && x@ == p@
            } else {
                r matches Err(e) && e@ == ErrView::User(not_regular_msg(p@))
            },
        },
{
    match canonical {
        Err(cause) => {
            let mut m = String::from_str("prompt file not found: ");
            m.append(display);
            m.append(": ");
            m.append(cause.as_str());
            Err(other_err(m))
        },
        Ok(p) => if is_file {
            Ok(p)
        } else {
            let mut m = String::from_str("prompt file is not a regular file: ");
            m.append(p.as_str());
            Err(user_err(m))
        },
    }
}

/// The request handed to the orchestrator: the arguments as given,
/// with the checked prompt path and the project root.
pub fn run(args: AskArgs, prompt_file: String, project_root: String) -> (r: AskRequest)
    ensures
        r.project_root == project_root,
        r.prompt_file == prompt_file,
        r.topic == args.topic,
        r.models == args.models,
        r.profiles == args.profiles,
        r.dry_run == args.dry_run,
        r.budget_only == args.budget_only,
        r.no_readonly_prefix == args.no_readonly_prefix,
        r.mode == args.mode,
        r.sandbox == args.sandbox,
        r.log_budget == args.log_budget,
{
    AskRequest {
        project_root,
        topic: args.topic,
        prompt_file,
        models: args.models,
        profiles: args.profiles,
        dry_run: args.dry_run,
        budget_only: args.budget_only,
        no_readonly_prefix: args.no_readonly_prefix,
        mode: args.mode,
        sandbox: args.sandbox,
        log_budget: args.log_budget,
    }
}

} // verus!
