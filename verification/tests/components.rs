use typst_cli::args::{ArgStore, Command, ParseError, parse_invocation, str_eq};
use typst_cli::exit::{ExitStatus, ExitTracker};
use typst_cli::report::{ErrorReport, render_error_line};
use typst_cli::router::{RouteAction, Timer, route};
use typst_cli::typst_version;

fn strings(words: &[&str]) -> Vec<String> {
    words.iter().map(|w| w.to_string()).collect()
}

#[test]
fn parse_once_ignores_second_arguments() {
    let mut store = ArgStore::new();
    let raw_a = strings(&["compile", "a.typ"]);
    let raw_b = strings(&["init", "other"]);

    let first = store.get_or_initialize(&raw_a).expect("first parse succeeds");
    match &first.command {
        Command::Compile(args) => assert_eq!(args.input, "a.typ"),
        _ => panic!("expected the compile command"),
    }

    let second = store.get_or_initialize(&raw_b).expect("cached read succeeds");
    match &second.command {
        Command::Compile(args) => assert_eq!(args.input, "a.typ"),
        _ => panic!("the second call must return the cached invocation"),
    }
}

#[test]
fn exit_tracker_starts_successful() {
    let tracker = ExitTracker::new();
    assert_eq!(tracker.current(), ExitStatus::Success);
}

#[test]
fn exit_tracker_failure_is_sticky() {
    let mut tracker = ExitTracker::new();
    tracker.mark_failed();
    assert_eq!(tracker.current(), ExitStatus::Failure);
    tracker.mark_failed();
    assert_eq!(tracker.current(), ExitStatus::Failure);
    tracker.mark_failed();
    assert_eq!(tracker.current(), ExitStatus::Failure);
}

#[test]
fn route_covers_every_command_variant() {
    let raw_sets: [&[&str]; 6] = [
        &["compile", "doc.typ"],
        &["init", "report"],
        &["query", "doc.typ", "--selector", "heading"],
        &["watch", "doc.typ"],
        &["fonts"],
        &["update"],
    ];
    let mut actions = Vec::new();
    for raw in raw_sets {
        let inv = parse_invocation(&strings(raw)).expect("parse succeeds");
        actions.push(route(&inv.command));
    }
    match &actions[0] {
        RouteAction::RunCompile(args) => assert_eq!(args.input, "doc.typ"),
        _ => panic!("compile must reach the compile handler"),
    }
    match &actions[1] {
        RouteAction::RunInit(args) => assert_eq!(args.template, "report"),
        _ => panic!("init must reach the init handler"),
    }
    match &actions[2] {
        RouteAction::RunQuery(args) => {
            assert_eq!(args.input, "doc.typ");
            assert_eq!(args.selector, "heading");
        }
        _ => panic!("query must reach the query handler"),
    }
    assert!(matches!(actions[3], RouteAction::NotSupported));
    assert!(matches!(actions[4], RouteAction::NotSupported));
    assert!(matches!(actions[5], RouteAction::NotSupported));
}

#[test]
fn error_line_is_error_colon_message() {
    let line = render_error_line("file not found");
    assert_eq!(line, "error: file not found");
}

#[test]
fn error_report_carries_message_and_hints() {
    let report = ErrorReport::new("package not found".to_string())
        .with_hint("run with --help".to_string())
        .with_hint("check the package name".to_string());
    assert_eq!(report.message(), "package not found");
    let hints = report.hints();
    assert_eq!(hints.len(), 2);
    assert_eq!(hints[0], "run with --help");
    assert_eq!(hints[1], "check the package name");
}

#[test]
fn parser_rejects_each_bad_shape() {
    assert_eq!(
        parse_invocation(&strings(&[])).unwrap_err(),
        ParseError::MissingSubcommand
    );
    assert_eq!(
        parse_invocation(&strings(&["--timings"])).unwrap_err(),
        ParseError::MissingSubcommand
    );
    assert_eq!(
        parse_invocation(&strings(&["frobnicate"])).unwrap_err(),
        ParseError::UnknownSubcommand
    );
    assert_eq!(
        parse_invocation(&strings(&["compile"])).unwrap_err(),
        ParseError::MissingArgument
    );
    assert_eq!(
        parse_invocation(&strings(&["compile", "a.typ", "b.typ"])).unwrap_err(),
        ParseError::UnexpectedArgument
    );
    assert_eq!(
        parse_invocation(&strings(&["query", "doc.typ"])).unwrap_err(),
        ParseError::MissingArgument
    );
    assert_eq!(
        parse_invocation(&strings(&["query", "doc.typ", "--selector"])).unwrap_err(),
        ParseError::MissingArgument
    );
    assert_eq!(
        parse_invocation(&strings(&["query", "doc.typ", "--output", "x"])).unwrap_err(),
        ParseError::UnexpectedArgument
    );
    assert_eq!(
        parse_invocation(&strings(&["fonts", "extra"])).unwrap_err(),
        ParseError::UnexpectedArgument
    );
}

#[test]
fn timings_flag_reaches_the_timer() {
    let plain = parse_invocation(&strings(&["compile", "doc.typ"])).expect("parse succeeds");
    assert!(!plain.timings);
    assert!(!Timer::new(&plain).enabled);

    let timed =
        parse_invocation(&strings(&["--timings", "compile", "doc.typ"])).expect("parse succeeds");
    assert!(timed.timings);
    assert!(Timer::new(&timed).enabled);
    match &timed.command {
        Command::Compile(args) => assert_eq!(args.input, "doc.typ"),
        _ => panic!("expected the compile command"),
    }
}

#[test]
fn str_eq_matches_string_equality() {
    assert!(str_eq("compile", "compile"));
    assert!(!str_eq("compile", "compil"));
    assert!(!str_eq("compile", "compiles"));
    assert!(!str_eq("", "a"));
    assert!(str_eq("", ""));
    assert!(!str_eq("größe", "grösse"));
    assert!(str_eq("größe", "größe"));
}

#[test]
fn version_string_is_fixed() {
    assert_eq!(typst_version(), "0.14.0");
}
