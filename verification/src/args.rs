//! The parsed invocation: command variants, the argument grammar, and the
//! store that parses the command line exactly once per run.
//!
//! The grammar is the tool's own: an optional leading `--timings` flag
//! followed by one subcommand with its positional payload. A syntactically
//! bad invocation is rejected with a [`ParseError`]; rejection is fatal to
//! the run and bypasses the normal error-report path.

use vstd::prelude::*;

verus! {

/// Payload of the `compile` subcommand: the document to compile.
#[derive(Debug)]
pub struct CompileArgs {
    pub input: String,
}

/// Payload of the `init` subcommand: the template to start from.
#[derive(Debug)]
pub struct InitArgs {
    pub template: String,
}

/// Payload of the `query` subcommand: the document and the selector to
/// evaluate against it.
#[derive(Debug)]
pub struct QueryArgs {
    pub input: String,
    pub selector: String,
}

/// Payload of the `watch` subcommand: the document to watch.
#[derive(Debug)]
pub struct WatchArgs {
    pub input: String,
}

/// The closed set of operations the tool supports. Exactly one is selected
/// per invocation. `Watch`, `Fonts` and `Update` are declared but not wired
/// to handlers yet.
#[derive(Debug)]
pub enum Command {
    Compile(CompileArgs),
    Init(InitArgs),
    Query(QueryArgs),
    Watch(WatchArgs),
    Fonts,
    Update,
}

/// The fully parsed, immutable representation of a command-line call.
#[derive(Debug)]
pub struct Invocation {
    /// Whether timing instrumentation was requested.
    pub timings: bool,
    /// The one operation this invocation selects.
    pub command: Command,
}

/// Mathematical model of a [`Command`]: the same variants over character
/// sequences.
pub enum CmdModel {
    Compile { input: Seq<char> },
    Init { template: Seq<char> },
    Query { input: Seq<char>, selector: Seq<char> },
    Watch { input: Seq<char> },
    Fonts,
    Update,
}

/// Mathematical model of an [`Invocation`].
pub struct InvModel {
    pub timings: bool,
    pub command: CmdModel,
}

impl View for Command {
    type V = CmdModel;

    open spec fn view(&self) -> CmdModel {
        match self {
            Command::Compile(a) => CmdModel::Compile { input: a.input@ },
            Command::Init(a) => CmdModel::Init { template: a.template@ },
            Command::Query(a) => CmdModel::Query { input: a.input@, selector: a.selector@ },
            Command::Watch(a) => CmdModel::Watch { input: a.input@ },
            Command::Fonts => CmdModel::Fonts,
            Command::Update => CmdModel::Update,
        }
    }
}

impl View for Invocation {
    type V = InvModel;

    open spec fn view(&self) -> InvModel {
        InvModel { timings: self.timings, command: self.command@ }
    }
}

impl Clone for Command {
    fn clone(&self) -> (r: Self)
        ensures
            r@ == self@,
    {
        match self {
            Command::Compile(a) => Command::Compile(CompileArgs { input: a.input.clone() }),
            Command::Init(a) => Command::Init(InitArgs { template: a.template.clone() }),
            Command::Query(a) => Command::Query(
                QueryArgs { input: a.input.clone(), selector: a.selector.clone() },
            ),
            Command::Watch(a) => Command::Watch(WatchArgs { input: a.input.clone() }),
            Command::Fonts => Command::Fonts,
            Command::Update => Command::Update,
        }
    }
}

impl Clone for Invocation {
    fn clone(&self) -> (r: Self)
        ensures
            r@ == self@,
    {
        Invocation { timings: self.timings, command: self.command.clone() }
    }
}

/// Why an invocation was rejected. Rejection terminates the run through the
/// parser's own exit path, never through an error report.
#[derive(Clone, Copy, Debug, PartialEq, Eq, Structural)]
pub enum ParseError {
    /// No subcommand was named at all; the host greets and shows usage.
    MissingSubcommand,
    /// The first word is not one of the tool's subcommands.
    UnknownSubcommand,
    /// A subcommand was named but a required argument is absent.
    MissingArgument,
    /// More words follow than the subcommand accepts.
    UnexpectedArgument,
}

/// The views of a sequence of strings.
pub open spec fn string_views(args: Seq<String>) -> Seq<Seq<char>> {
    Seq::new(args.len(), |i: int| args[i]@)
}

/// What parsing the words after the global flags yields: the selected
/// command, or the reason the invocation is rejected.
pub open spec fn spec_parse_command(args: Seq<Seq<char>>) -> Result<CmdModel, ParseError> {
    if args.len() == 0 {
        Err(ParseError::MissingSubcommand)
    } else if args[0] == "compile"@ {
        if args.len() < 2 {
            Err(ParseError::MissingArgument)
        } else if args.len() > 2 {
            Err(ParseError::UnexpectedArgument)
        } else {
            Ok(CmdModel::Compile { input: args[1] })
        }
    } else if args[0] == "init"@ {
        if args.len() < 2 {
            Err(ParseError::MissingArgument)
        } else if args.len() > 2 {
            Err(ParseError::UnexpectedArgument)
        } else {
            Ok(CmdModel::Init { template: args[1] })
        }
    } else if args[0] == "query"@ {
        if args.len() < 3 {
            Err(ParseError::MissingArgument)
        } else if args[2] != "--selector"@ {
            Err(ParseError::UnexpectedArgument)
        } else if args.len() == 3 {
            Err(ParseError::MissingArgument)
        } else if args.len() == 4 {
            Ok(CmdModel::Query { input: args[1], selector: args[3] })
        } else {
            Err(ParseError::UnexpectedArgument)
        }
    } else if args[0] == "watch"@ {
        if args.len() < 2 {
            Err(ParseError::MissingArgument)
        } else if args.len() > 2 {
            Err(ParseError::UnexpectedArgument)
        } else {
            Ok(CmdModel::Watch { input: args[1] })
        }
    } else if args[0] == "fonts"@ {
        if args.len() == 1 {
            Ok(CmdModel::Fonts)
        } else {
            Err(ParseError::UnexpectedArgument)
        }
    } else if args[0] == "update"@ {
        if args.len() == 1 {
            Ok(CmdModel::Update)
        } else {
            Err(ParseError::UnexpectedArgument)
        }
    } else {
        Err(ParseError::UnknownSubcommand)
    }
}

/// What parsing a whole raw argument sequence yields: the invocation, or
/// the reason it is rejected.
pub open spec fn spec_parse(args: Seq<Seq<char>>) -> Result<InvModel, ParseError> {
    if args.len() > 0 && args[0] == "--timings"@ {
        match spec_parse_command(args.skip(1)) {
            Ok(c) => Ok(InvModel { timings: true, command: c }),
            Err(e) => Err(e),
        }
    } else {
        match spec_parse_command(args) {
            Ok(c) => Ok(InvModel { timings: false, command: c }),
            Err(e) => Err(e),
        }
    }
}

/// Character-by-character string equality.
pub fn str_eq(a: &str, b: &str) -> (r: bool)
    ensures
        r <==> a@ == b@,
{
    let alen = a.unicode_len();
    let blen = b.unicode_len();
    if alen != blen {
        return false;
    }
    let mut i: usize = 0;
    while i < alen
        invariant
            i <= alen,
            alen == a@.len(),
            blen == b@.len(),
            alen == blen,
            forall|j: int| 0 <= j < i ==> a@[j] == b@[j],
        decreases alen - i,
    {
        let ca = a.get_char(i);
        let cb = b.get_char(i);
        if ca != cb {
            return false;
        }
        i += 1;
    }
    proof {
        assert(a@ =~= b@);
    }
    true
}

/// Parse the words from position `start` on as a subcommand with its
/// payload.
fn parse_command(args: &Vec<String>, start: usize) -> (r: Result<Command, ParseError>)
    requires
        start <= args@.len(),
    ensures
        ({
            let rest = string_views(args@).skip(start as int);
            match (r, spec_parse_command(rest)) {
                (Ok(c), Ok(m)) => c@ == m,
                (Err(e), Err(f)) => e == f,
                _ => false,
            }
        }),
{
    let n = args.len();
    if n == start {
        return Err(ParseError::MissingSubcommand);
    }
    let sub = args[start].as_str();
    if str_eq(sub, "compile") {
        if n - start < 2 {
            Err(ParseError::MissingArgument)
        } else if n - start > 2 {
            Err(ParseError::UnexpectedArgument)
        } else {
            Ok(Command::Compile(CompileArgs { input: args[start + 1].clone() }))
        }
    } else if str_eq(sub, "init") {
        if n - start < 2 {
            Err(ParseError::MissingArgument)
        } else if n - start > 2 {
            Err(ParseError::UnexpectedArgument)
        } else {
            Ok(Command::Init(InitArgs { template: args[start + 1].clone() }))
        }
    } else if str_eq(sub, "query") {
        if n - start < 3 {
            Err(ParseError::MissingArgument)
        } else if !str_eq(args[start + 2].as_str(), "--selector") {
            Err(ParseError::UnexpectedArgument)
        } else if n - start == 3 {
            Err(ParseError::MissingArgument)
        } else if n - start == 4 {
            Ok(Command::Query(
                QueryArgs { input: args[start + 1].clone(), selector: args[start + 3].clone() },
            ))
        } else {
            Err(ParseError::UnexpectedArgument)
        }
    } else if str_eq(sub, "watch") {
        if n - start < 2 {
            Err(ParseError::MissingArgument)
        } else if n - start > 2 {
            Err(ParseError::UnexpectedArgument)
        } else {
            Ok(Command::Watch(WatchArgs { input: args[start + 1].clone() }))
        }
    } else if str_eq(sub, "fonts") {
        if n - start == 1 {
            Ok(Command::Fonts)
        } else {
            Err(ParseError::UnexpectedArgument)
        }
    } else if str_eq(sub, "update") {
        if n - start == 1 {
            Ok(Command::Update)
        } else {
            Err(ParseError::UnexpectedArgument)
        }
    } else {
        Err(ParseError::UnknownSubcommand)
    }
}

/// Parse a whole raw argument sequence into an invocation.
pub fn parse_invocation(args: &Vec<String>) -> (r: Result<Invocation, ParseError>)
    ensures
        ({
            match (r, spec_parse(string_views(args@))) {
                (Ok(inv), Ok(m)) => inv@ == m,
                (Err(e), Err(f)) => e == f,
                _ => false,
            }
        }),
{
    let timings = args.len() > 0 && str_eq(args[0].as_str(), "--timings");
    let start: usize = if timings {
        1
    } else {
        0
    };
    proof {
        if !timings {
            assert(string_views(args@).skip(0) =~= string_views(args@));
        }
    }
    match parse_command(args, start) {
        Ok(command) => Ok(Invocation { timings, command }),
        Err(e) => Err(e),
    }
}

/// Holds the parsed invocation for the rest of the run.
///
/// The first `get_or_initialize` call parses its raw arguments; every later
/// call returns the cached invocation unchanged, whatever arguments it is
/// handed. A failed first parse caches nothing: the run is over.
pub struct ArgStore {
    cached: Option<Invocation>,
}

impl View for ArgStore {
    type V = Option<InvModel>;

    closed spec fn view(&self) -> Option<InvModel> {
        match self.cached {
            Some(inv) => Some(inv@),
            None => None,
        }
    }
}

/// What `get_or_initialize` returns for a store in state `s` handed the raw
/// arguments `raw`: the cached invocation if there is one, else the outcome
/// of parsing `raw`.
pub open spec fn store_lookup(s: Option<InvModel>, raw: Seq<Seq<char>>) -> Result<
    InvModel,
    ParseError,
> {
    match s {
        Some(m) => Ok(m),
        None => spec_parse(raw),
    }
}

/// The store's state after `get_or_initialize` on state `s` with raw
/// arguments `raw`.
pub open spec fn store_after(s: Option<InvModel>, raw: Seq<Seq<char>>) -> Option<InvModel> {
    match s {
        Some(m) => Some(m),
        None => match spec_parse(raw) {
            Ok(m) => Some(m),
            Err(_) => None,
        },
    }
}

impl ArgStore {
    /// A fresh store holds no invocation yet.
    pub fn new() -> (s: ArgStore)
        ensures
            s@ is None,
    {
        ArgStore { cached: None }
    }

    /// Return the invocation this run was started with.
    ///
    /// On the first call, `raw` is parsed and the result cached; on every
    /// later call the cached invocation is returned and `raw` is ignored.
    pub fn get_or_initialize(&mut self, raw: &Vec<String>) -> (r: Result<Invocation, ParseError>)
        ensures
            final(self)@ == store_after(old(self)@, string_views(raw@)),
            match (r, store_lookup(old(self)@, string_views(raw@))) {
                (Ok(inv), Ok(m)) => inv@ == m,
                (Err(e), Err(f)) => e == f,
                _ => false,
            },
    {
        match self.cached {
            Some(ref inv) => Ok(inv.clone()),
            None => match parse_invocation(raw) {
                Ok(inv) => {
                    let ret = inv.clone();
                    self.cached = Some(inv);
                    Ok(ret)
                },
                Err(e) => Err(e),
            },
        }
    }
}

/// Law: parse-once idempotence. Once a store has been initialized with a
/// well-formed argument sequence, a second call with any other sequence
/// returns the very invocation the first call produced and leaves the store
/// unchanged: the second call's input is ignored.
pub proof fn lemma_parse_once(first: Seq<Seq<char>>, second: Seq<Seq<char>>)
    requires
        spec_parse(first) is Ok,
    ensures
        store_lookup(store_after(None, first), second) == store_lookup(
            None::<InvModel>,
            first,
        ),
        store_after(store_after(None, first), second) == store_after(None::<InvModel>, first),
{
}

} // verus!
