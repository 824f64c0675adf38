//! The command line: its subcommands as plain data, and which handler
//! runs for a parsed command line.
use vstd::prelude::*;

pub mod ask;
pub mod auth;
pub mod clean;
pub mod doctor;
pub mod init;
pub mod list;
pub mod models;
pub mod reset;
pub mod status;
pub mod welcome;

use ask::AskArgs;
use auth::AuthArgs;
use clean::CleanArgs;
use doctor::DoctorArgs;
use init::InitArgs;
use list::ListArgs;
use models::ModelsArgs;
use reset::ResetArgs;
use status::StatusArgs;

verus! {

/// A parsed command line.
pub struct Cli {
    /// Agent-mode entry point: with no subcommand, print a health report
    /// and next-step guidance with no pause and no prompts. Ignored when a
    /// subcommand is present.
    pub agent: bool,
    /// `None` (no arguments) lands in the welcome wizard.
    pub command: Option<Command>,
}

pub enum Command {
    /// Install a2a templates into a project.
    Init(InitArgs),
    /// Ask multiple AI models in parallel and persist their answers.
    Ask(AskArgs),
    /// Manage authentication profiles.
    Auth(AuthArgs),
    /// Check environment health.
    Doctor(DoctorArgs),
    /// List past consultations in the current project.
    List(ListArgs),
    /// Clean stale consultation records and OS tempdir mirrors.
    Clean(CleanArgs),
    /// Show current default profile and PATH check.
    Status(StatusArgs),
    /// Manage model aliases.
    Models(ModelsArgs),
    /// Reset model aliases or credentials.
    Reset(ResetArgs),
}

/// What runs for a command line.
pub enum Dispatch {
    /// The interactive welcome wizard (no arguments).
    Welcome,
    /// The agent-mode report (`--agent`, no subcommand).
    WelcomeAgent,
    /// A subcommand's handler.
    Run(Command),
}

/// No subcommand runs the welcome wizard, or its agent-mode variant
/// under `--agent`; a subcommand runs its handler and `--agent` is
/// ignored.
pub fn dispatch(cli: Cli) -> (d: Dispatch)
    ensures
        match cli.command {
            None => if cli.agent {
                d is WelcomeAgent
            } else {
                d is Welcome
            },
            Some(c) => d == Dispatch::Run(c),
        },
{
    match cli.command {
        None => if cli.agent {
            Dispatch::WelcomeAgent
        } else {
            Dispatch::Welcome
        },
        Some(c) => Dispatch::Run(c),
    }
}

} // verus!
