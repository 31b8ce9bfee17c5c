//! One-shot routing of the parsed command to its handler, and the settling
//! of a dispatch outcome into the run's verdict.
//!
//! The router performs exactly one dispatch per run: it reads the single
//! command held by the invocation and maps it to one handler invocation, or
//! to an explicit unsupported-command failure for the variants that are
//! declared but not wired to handlers. Nothing is retried or recovered
//! locally; every failure is surfaced unchanged.

use vstd::prelude::*;

use crate::args::ArgStore;
use crate::args::CmdModel;
use crate::args::Command;
use crate::args::CompileArgs;
use crate::args::InitArgs;
use crate::args::Invocation;
use crate::args::ParseError;
use crate::args::QueryArgs;
use crate::args::string_views;
use crate::args::store_after;
use crate::args::store_lookup;
use crate::exit::ExitStatus;
use crate::exit::ExitTracker;
use crate::report::ErrorReport;
use crate::report::render_error_line;
use crate::report::spec_error_line;

verus! {

/// Instrumentation handle for one command execution, bound to the
/// invocation's timing configuration. It is handed to the compile handler
/// and discarded when the command finishes; what the handler records with it
/// is the handler's concern.
pub struct Timer {
    pub enabled: bool,
}

impl Timer {
    /// A timer for one command execution: it records segments exactly when
    /// the invocation asked for timings.
    pub fn new(invocation: &Invocation) -> (t: Timer)
        ensures
            t.enabled == invocation@.timings,
    {
        Timer { enabled: invocation.timings }
    }
}

/// The command handlers: external collaborators the router delegates to.
/// Compilation, project initialization and query execution are outside this
/// core; a host implements them and either returns or reports a failure.
/// Nothing is assumed about what an implementation does.
pub trait CommandHandlers {
    /// Compile the document named by the payload, instrumented by `timer`.
    fn compile(&mut self, timer: Timer, args: &CompileArgs) -> Result<(), ErrorReport>;

    /// Initialize a new project from the named template.
    fn init(&mut self, args: &InitArgs) -> Result<(), ErrorReport>;

    /// Evaluate the selector against the named document.
    fn query(&mut self, args: &QueryArgs) -> Result<(), ErrorReport>;
}

/// The handler invocation a command calls for, payload included, or the
/// explicit marker for a command that has no handler yet.
pub enum RouteAction {
    RunCompile(CompileArgs),
    RunInit(InitArgs),
    RunQuery(QueryArgs),
    NotSupported,
}

/// Mathematical model of a [`RouteAction`].
pub enum RouteModel {
    ToCompile { input: Seq<char> },
    ToInit { template: Seq<char> },
    ToQuery { input: Seq<char>, selector: Seq<char> },
    NotSupported,
}

impl View for RouteAction {
    type V = RouteModel;

    open spec fn view(&self) -> RouteModel {
        match self {
            RouteAction::RunCompile(a) => RouteModel::ToCompile { input: a.input@ },
            RouteAction::RunInit(a) => RouteModel::ToInit { template: a.template@ },
            RouteAction::RunQuery(a) => RouteModel::ToQuery {
                input: a.input@,
                selector: a.selector@,
            },
            RouteAction::NotSupported => RouteModel::NotSupported,
        }
    }
}

/// Where each command variant is routed: `Compile`, `Init` and `Query` to
/// their handlers, carrying their payloads unchanged; `Watch`, `Fonts` and
/// `Update` to the explicit unsupported marker.
pub open spec fn route_of(c: CmdModel) -> RouteModel {
    match c {
        CmdModel::Compile { input } => RouteModel::ToCompile { input },
        CmdModel::Init { template } => RouteModel::ToInit { template },
        CmdModel::Query { input, selector } => RouteModel::ToQuery { input, selector },
        CmdModel::Watch { .. } => RouteModel::NotSupported,
        CmdModel::Fonts => RouteModel::NotSupported,
        CmdModel::Update => RouteModel::NotSupported,
    }
}

/// Map one command to the handler invocation it requires.
pub fn route(command: &Command) -> (r: RouteAction)
    ensures
        r@ == route_of(command@),
{
    match command {
        Command::Compile(a) => RouteAction::RunCompile(CompileArgs { input: a.input.clone() }),
        Command::Init(a) => RouteAction::RunInit(InitArgs { template: a.template.clone() }),
        Command::Query(a) => RouteAction::RunQuery(
            QueryArgs { input: a.input.clone(), selector: a.selector.clone() },
        ),
        Command::Watch(_) => RouteAction::NotSupported,
        Command::Fonts => RouteAction::NotSupported,
        Command::Update => RouteAction::NotSupported,
    }
}

/// Law: dispatch totality. Every command value is routed, and routed to
/// exactly the handler invocation matching its variant with its payload
/// unchanged — or, for the declared-but-unwired variants, to the explicit
/// unsupported marker. No command is silently dropped.
pub proof fn lemma_dispatch_total(c: CmdModel)
    ensures
        match c {
            CmdModel::Compile { input } => route_of(c) == RouteModel::ToCompile { input },
            CmdModel::Init { template } => route_of(c) == RouteModel::ToInit { template },
            CmdModel::Query { input, selector } => route_of(c) == RouteModel::ToQuery {
                input,
                selector,
            },
            CmdModel::Watch { .. } => route_of(c) == RouteModel::NotSupported,
            CmdModel::Fonts => route_of(c) == RouteModel::NotSupported,
            CmdModel::Update => route_of(c) == RouteModel::NotSupported,
        },
{
}

/// Why one dispatch did not complete.
pub enum DispatchError {
    /// The raw arguments were rejected; the run ends through the parser's
    /// own exit path, not through an error report.
    ParseFailed(ParseError),
    /// The command is declared but not wired to a handler yet.
    Unsupported,
    /// The handler ran and reported a failure.
    Handler(ErrorReport),
}

/// The message reported when a declared but unwired command is requested.
pub open spec fn unsupported_message() -> Seq<char> {
    "unsupported command"@
}

/// Execute the requested command: read the invocation from the store
/// (parsing it on the first call of the run), build the timer, and perform
/// the one dispatch the command calls for.
pub fn dispatch<H: CommandHandlers>(
    handlers: &mut H,
    store: &mut ArgStore,
    raw: &Vec<String>,
) -> (r: Result<(), DispatchError>)
    ensures
        final(store)@ == store_after(old(store)@, string_views(raw@)),
        match store_lookup(old(store)@, string_views(raw@)) {
            Err(e) => r == Err::<(), DispatchError>(DispatchError::ParseFailed(e)),
            Ok(m) => match route_of(m.command) {
                RouteModel::NotSupported => r == Err::<(), DispatchError>(
                    DispatchError::Unsupported,
                ),
                _ => r is Ok || r matches Err(DispatchError::Handler(_)),
            },
        },
{
    let invocation = match store.get_or_initialize(raw) {
        Ok(inv) => inv,
        Err(e) => {
            return Err(DispatchError::ParseFailed(e));
        },
    };
    let timer = Timer::new(&invocation);
    match route(&invocation.command) {
        RouteAction::RunCompile(args) => match handlers.compile(timer, &args) {
            Ok(()) => Ok(()),
            Err(report) => Err(DispatchError::Handler(report)),
        },
        RouteAction::RunInit(args) => match handlers.init(&args) {
            Ok(()) => Ok(()),
            Err(report) => Err(DispatchError::Handler(report)),
        },
        RouteAction::RunQuery(args) => match handlers.query(&args) {
            Ok(()) => Ok(()),
            Err(report) => Err(DispatchError::Handler(report)),
        },
        RouteAction::NotSupported => Err(DispatchError::Unsupported),
    }
}

/// Settle the outcome of one dispatch: a completed dispatch leaves the
/// tracker alone and reports the present verdict; a failed one marks the
/// run failed and renders the one error line to print. Parse failures never
/// reach this point — they bypass the report machinery.
pub fn settle(outcome: Result<(), DispatchError>, tracker: &mut ExitTracker) -> (r: (
    ExitStatus,
    Option<String>,
))
    requires
        !(outcome matches Err(DispatchError::ParseFailed(_))),
    ensures
        match outcome {
            Ok(_) => {
                &&& *final(tracker) == *old(tracker)
                &&& r.0 == old(tracker)@
                &&& r.1 is None
            },
            Err(DispatchError::Unsupported) => {
                &&& final(tracker)@ == ExitStatus::Failure
                &&& r.0 == ExitStatus::Failure
                &&& r.1 matches Some(line) && line@ == spec_error_line(unsupported_message())
            },
            Err(DispatchError::Handler(report)) => {
                &&& final(tracker)@ == ExitStatus::Failure
                &&& r.0 == ExitStatus::Failure
                &&& r.1 matches Some(line) && line@ == spec_error_line(report@.message)
            },
            Err(DispatchError::ParseFailed(_)) => false,
        },
{
    match outcome {
        Ok(()) => (tracker.current(), None),
        Err(DispatchError::Unsupported) => {
            tracker.mark_failed();
            (ExitStatus::Failure, Some(render_error_line("unsupported command")))
        },
        Err(DispatchError::Handler(report)) => {
            tracker.mark_failed();
            (ExitStatus::Failure, Some(render_error_line(report.message())))
        },
        Err(DispatchError::ParseFailed(_)) => unreached(),
    }
}

} // verus!
