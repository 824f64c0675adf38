//! a2a (Agent to Agent) — multi-AI consultation bridge: the verified core.
//!
//! The command-line program lives in `app/`; this crate holds the rules it
//! follows: error routing of `cursor-agent` failures, the per-alias profile
//! fallback machine, prompt and frontmatter handling, name validation,
//! housekeeping filters and the other decisions the program makes.
use vstd::prelude::*;
use commands::{Cli, Command, Dispatch, dispatch};

pub mod auth;
pub mod commands;
pub mod defaults;
pub mod embedded;
pub mod fallback;
pub mod isolation;
pub mod json;
pub mod paths;
pub mod prompt;
pub mod runner;
pub mod text;
pub mod util;

verus! {

/// Version stamped into installed templates and reports.
pub const A2A_VERSION: &'static str = "0.1.0";

/// A user-facing soft error: an expected outcome the user can correct
/// (for instance "profile name taken"). The program prints it and exits 0.
#[derive(Debug, Clone)]
pub struct UserError(pub String);

/// The operation reached `cursor-agent` / the upstream model and the
/// model side failed. The program prints it and exits 1.
#[derive(Debug, Clone)]
pub struct BusinessFailure(pub String);

/// Every error the library reports.
#[derive(Debug, Clone)]
pub enum A2aError {
    User(UserError),
    Business(BusinessFailure),
    /// Any other failure, with its message.
    Other(String),
}

/// The message-level meaning of an [`A2aError`].
pub enum ErrView {
    User(Seq<char>),
    Business(Seq<char>),
    Other(Seq<char>),
}

impl View for A2aError {
    type V = ErrView;

    open spec fn view(&self) -> ErrView {
        match self {
            A2aError::User(e) => ErrView::User(e.0@),
            A2aError::Business(e) => ErrView::Business(e.0@),
            A2aError::Other(m) => ErrView::Other(m@),
        }
    }
}

/// Build a soft user error from a message.
pub fn user_err(msg: String) -> (e: A2aError)
    ensures
        e@ == ErrView::User(msg@),
{
    A2aError::User(UserError(msg))
}

/// Build a business failure (upstream rejected the operation).
pub fn business_failure(msg: String) -> (e: A2aError)
    ensures
        e@ == ErrView::Business(msg@),
{
    A2aError::Business(BusinessFailure(msg))
}

/// Build a plain (system) error.
pub fn other_err(msg: String) -> (e: A2aError)
    ensures
        e@ == ErrView::Other(msg@),
{
    A2aError::Other(msg)
}

/// What the program does with a parsed command line: whether to probe
/// for `cursor-agent` first (to warn when it is missing), and which
/// handler runs.
pub struct RunPlan {
    pub probe_cursor_agent: bool,
    pub dispatch: Dispatch,
}

/// Every subcommand except `doctor` and `status` (which report on
/// cursor-agent themselves) warns when cursor-agent is not on PATH; the
/// welcome wizard has its own check.
pub open spec fn probes_spec(c: Option<Command>) -> bool {
    match c {
        Some(Command::Doctor(_)) | Some(Command::Status(_)) | None => false,
        Some(_) => true,
    }
}

pub fn run(cli: Cli) -> (p: RunPlan)
    ensures
        p.probe_cursor_agent == probes_spec(cli.command),
        match cli.command {
            None => if cli.agent {
                p.dispatch is WelcomeAgent
            } else {
                p.dispatch is Welcome
            },
            Some(c) => p.dispatch == Dispatch::Run(c),
        },
{
    let probe = match &cli.command {
        Some(Command::Doctor(_)) | Some(Command::Status(_)) | None => false,
        Some(_) => true,
    };
    RunPlan { probe_cursor_agent: probe, dispatch: dispatch(cli) }
}

/// The two lines printed to stderr when cursor-agent is missing.
pub fn missing_cursor_agent_warning() -> (r: (String, String))
    ensures
        r.0@ == "[!!] cursor-agent not on PATH; `a2a ask` and `a2a models available` will fail."@,
        r.1@ == "     Install Cursor CLI from https://cursor.com/cli, or run `a2a doctor` for platform-specific install instructions."@,
{
    (
        String::from_str("[!!] cursor-agent not on PATH; `a2a ask` and `a2a models available` will fail."),
        String::from_str(
            "     Install Cursor CLI from https://cursor.com/cli, or run `a2a doctor` for platform-specific install instructions.",
        ),
    )
}

/// How a failed command ends: a user error is printed to stdout and
/// exits 0 (an expected outcome, no trace); a business failure is
/// printed to stdout and exits 1; anything else goes to stderr as
/// `Error: ...` and exits 1.
pub struct ErrorReport {
    pub to_stderr: bool,
    pub text: String,
    pub exit_code: u8,
}

pub fn report_error(e: &A2aError) -> (r: ErrorReport)
    ensures
        match e@ {
            ErrView::User(m) => !r.to_stderr && r.text@ == m && r.exit_code == 0,
            ErrView::Business(m) => !r.to_stderr && r.text@ == m && r.exit_code == 1,
            ErrView::Other(m) => r.to_stderr && r.text@ == "Error: "@ + m && r.exit_code == 1,
        },
{
    match e {
        A2aError::User(u) => ErrorReport { to_stderr: false, text: u.0.clone(), exit_code: 0 },
        A2aError::Business(b) => ErrorReport { to_stderr: false, text: b.0.clone(), exit_code: 1 },
        A2aError::Other(m) => {
            let mut t = String::from_str("Error: ");
            t.append(m.as_str());
            ErrorReport { to_stderr: true, text: t, exit_code: 1 }
        },
    }
}

} // verus!
