//! Command-dispatch core of a document-processing command-line tool.
//!
//! The library parses an invocation exactly once per run, routes the parsed
//! command to one of a fixed set of handlers, renders any failure as a
//! uniform error line, and tracks the run's exit status. The handlers
//! themselves (compilation, project initialization, queries) are external
//! collaborators reached through the `CommandHandlers` interface.

use vstd::prelude::*;

pub mod args;
pub mod exit;
pub mod report;
pub mod router;

use crate::args::ArgStore;
use crate::args::ParseError;
use crate::args::string_views;
use crate::args::store_after;
use crate::args::store_lookup;
use crate::exit::ExitStatus;
use crate::exit::ExitTracker;
use crate::report::spec_error_line;
use crate::router::CommandHandlers;
use crate::router::DispatchError;
use crate::router::RouteModel;
use crate::router::dispatch;
use crate::router::route_of;
use crate::router::settle;
use crate::router::unsupported_message;

verus! {

/// What one run of the tool came to.
pub enum ExecOutcome {
    /// The raw arguments were rejected; the run ends through the parser's
    /// own exit path, outside the report and exit-state machinery. `greet`
    /// says whether the host shows the greeting banner first: it does
    /// exactly when no subcommand was named.
    ParseFailed { error: ParseError, greet: bool },
    /// The command was dispatched. `status` is the run's verdict and
    /// `error_line` the one rendered line to print when the dispatch failed.
    Finished { status: ExitStatus, error_line: Option<String> },
}

/// Entry point for one run: dispatch the requested command once; on failure,
/// mark the run failed and render the error line; hand back the verdict the
/// host turns into its process exit status.
pub fn exec<H: CommandHandlers>(
    handlers: &mut H,
    store: &mut ArgStore,
    tracker: &mut ExitTracker,
    raw: &Vec<String>,
) -> (r: ExecOutcome)
    ensures
        final(store)@ == store_after(old(store)@, string_views(raw@)),
        old(tracker)@ == ExitStatus::Failure ==> final(tracker)@ == ExitStatus::Failure,
        r matches ExecOutcome::Finished { status, error_line } ==> {
            &&& status == final(tracker)@
            &&& (error_line is Some ==> final(tracker)@ == ExitStatus::Failure)
            &&& (error_line is None ==> *final(tracker) == *old(tracker))
        },
        match store_lookup(old(store)@, string_views(raw@)) {
            Err(e) => {
                &&& r == ExecOutcome::ParseFailed {
                    error: e,
                    greet: e == ParseError::MissingSubcommand,
                }
                &&& *final(tracker) == *old(tracker)
            },
            Ok(m) => {
                &&& r matches ExecOutcome::Finished { .. }
                &&& (route_of(m.command) is NotSupported ==> (match r {
                    ExecOutcome::Finished { status, error_line } => {
                        &&& status == ExitStatus::Failure
                        &&& error_line matches Some(line) && line@ == spec_error_line(
                            unsupported_message(),
                        )
                    },
                    _ => false,
                }))
            },
        },
{
    let outcome = dispatch(handlers, store, raw);
    match outcome {
        Err(DispatchError::ParseFailed(error)) => {
            let greet = error == ParseError::MissingSubcommand;
            ExecOutcome::ParseFailed { error, greet }
        },
        other => {
            let (status, error_line) = settle(other, tracker);
            ExecOutcome::Finished { status, error_line }
        },
    }
}

/// The version string the command-line tool reports about itself.
pub fn typst_version() -> (r: &'static str)
    ensures
        r@ == "0.14.0"@,
{
    "0.14.0"
}

} // verus!
