use clap::builder::PossibleValuesParser;
use clap::error::{ContextKind, ContextValue, ErrorKind};
use clap::{Arg, Command};
use vidu_cli::usage::{
    available_subcommands, extract_usage_path, is_display_request, parse_usage_line,
    render_friendly, render_invalid_subcommand, render_invalid_value, render_missing_required,
    resolve_subcommand, strip_ansi, suggested_value, CommandNode, ContextEntry, ParseErrorKind,
    ParseErrorReport,
};

// A stand-in command line with the shape the renderer is exercised on:
// `task` (`submit`, `get`) and `quota` (`pass`, `credit`).
fn test_cli() -> Command {
    Command::new("vidu-cli")
        .subcommand(
            Command::new("task")
                .subcommand_required(true)
                .arg_required_else_help(true)
                .subcommand(
                    Command::new("submit")
                        .arg(
                            Arg::new("task_type")
                                .long("type")
                                .value_name("TASK_TYPE")
                                .required(true)
                                .value_parser(PossibleValuesParser::new([
                                    "text2image",
                                    "img2video",
                                    "character2video",
                                ])),
                        )
                        .arg(
                            Arg::new("model_version")
                                .long("model-version")
                                .value_name("MODEL_VERSION")
                                .required(true),
                        ),
                )
                .subcommand(Command::new("get")),
        )
        .subcommand(
            Command::new("quota")
                .subcommand_required(true)
                .arg_required_else_help(true)
                .subcommand(Command::new("pass"))
                .subcommand(Command::new("credit")),
        )
}

fn node_of(c: &Command) -> CommandNode {
    CommandNode {
        name: c.get_name().to_string(),
        names: c.get_all_aliases().map(|a| a.to_string()).collect(),
        hidden: c.is_hide_set(),
        subcommands: c.get_subcommands().map(node_of).collect(),
    }
}

fn entry(err: &clap::Error, kind: ContextKind) -> ContextEntry {
    match err.get(kind) {
        None => ContextEntry::Absent,
        Some(ContextValue::String(s)) => ContextEntry::Text(s.clone()),
        Some(ContextValue::Strings(v)) => ContextEntry::Texts(v.clone()),
        Some(_) => ContextEntry::Other,
    }
}

fn report_of(err: &clap::Error) -> ParseErrorReport {
    let kind = match err.kind() {
        ErrorKind::DisplayHelp => ParseErrorKind::DisplayHelp,
        ErrorKind::DisplayVersion => ParseErrorKind::DisplayVersion,
        ErrorKind::DisplayHelpOnMissingArgumentOrSubcommand => {
            ParseErrorKind::DisplayHelpOnMissingArgumentOrSubcommand
        }
        ErrorKind::InvalidSubcommand => ParseErrorKind::InvalidSubcommand,
        ErrorKind::UnknownArgument => ParseErrorKind::UnknownArgument,
        ErrorKind::InvalidValue => ParseErrorKind::InvalidValue,
        ErrorKind::MissingRequiredArgument => ParseErrorKind::MissingRequiredArgument,
        _ => ParseErrorKind::Other,
    };
    let usage = err
        .get(ContextKind::Usage)
        .map(|v| v.to_string())
        .filter(|s| !s.is_empty());
    ParseErrorReport {
        kind,
        rendered: err.render().to_string(),
        usage,
        invalid_subcommand: entry(err, ContextKind::InvalidSubcommand),
        invalid_arg: entry(err, ContextKind::InvalidArg),
        invalid_value: entry(err, ContextKind::InvalidValue),
        valid_value: entry(err, ContextKind::ValidValue),
        suggested_subcommand: entry(err, ContextKind::SuggestedSubcommand),
        suggested_value: entry(err, ContextKind::SuggestedValue),
    }
}

fn render_for(args: &[&str]) -> String {
    match test_cli().try_get_matches_from(args) {
        Ok(_) => panic!("expected parse error for {:?}", args),
        Err(e) => {
            let mut cmd = test_cli();
            cmd.build();
            render_friendly(&node_of(&cmd), &report_of(&e))
        }
    }
}

fn strings(v: &[&str]) -> Vec<String> {
    v.iter().map(|s| s.to_string()).collect()
}

fn leaf(name: &str) -> CommandNode {
    CommandNode { name: name.to_string(), names: vec![], hidden: false, subcommands: vec![] }
}

fn report(kind: ParseErrorKind, rendered: &str) -> ParseErrorReport {
    ParseErrorReport {
        kind,
        rendered: rendered.to_string(),
        usage: None,
        invalid_subcommand: ContextEntry::Absent,
        invalid_arg: ContextEntry::Absent,
        invalid_value: ContextEntry::Absent,
        valid_value: ContextEntry::Absent,
        suggested_subcommand: ContextEntry::Absent,
        suggested_value: ContextEntry::Absent,
    }
}

#[test]
fn invalid_top_level_subcommand_lists_available_and_suggests() {
    let out = render_for(&["vidu-cli", "tasks"]);
    assert!(out.contains("unrecognized subcommand 'tasks'"), "got: {out}");
    assert!(out.contains("under 'vidu-cli'"), "got: {out}");
    assert!(out.contains("available: quota, task"), "got: {out}");
    assert!(out.contains("did you mean 'task'"), "got: {out}");
}

#[test]
fn invalid_nested_subcommand_uses_correct_scope() {
    let out = render_for(&["vidu-cli", "task", "creat"]);
    assert!(out.contains("under 'vidu-cli task'"), "got: {out}");
    assert!(out.contains("available: get, submit"), "got: {out}");
}

#[test]
fn invalid_value_lists_possible_values_and_suggestion() {
    let out = render_for(&[
        "vidu-cli",
        "task",
        "submit",
        "--type",
        "img2img",
        "--model-version",
        "3.2",
    ]);
    assert!(out.contains("invalid value 'img2img'"), "got: {out}");
    assert!(
        out.contains("possible values: text2image, img2video, character2video"),
        "got: {out}"
    );
    assert!(out.contains("did you mean 'img2video'"), "got: {out}");
}

#[test]
fn cli_errors_missing_required_lists_each_arg_with_help_tip() {
    let out = render_for(&["vidu-cli", "task", "submit"]);
    assert!(out.contains("missing required arguments:"), "got: {out}");
    assert!(out.contains("--type <TASK_TYPE>"), "got: {out}");
    assert!(out.contains("`vidu-cli task submit --help`"), "got: {out}");
}

#[test]
fn unknown_flag_falls_back_to_clap_default() {
    let out = render_for(&["vidu-cli", "task", "submit", "--typo", "x"]);
    assert!(out.contains("--typo"), "got: {out}");
    assert!(
        !out.contains("under 'vidu-cli"),
        "should not be rewritten as bad subcommand: {out}"
    );
    assert!(
        !out.contains("available:"),
        "should not be rewritten as bad subcommand: {out}"
    );
}

#[test]
fn parse_usage_line_extracts_path() {
    let p = parse_usage_line("Usage: vidu-cli task submit --type <TYPE>");
    assert_eq!(p, vec!["vidu-cli", "task", "submit"]);
}

#[test]
fn parse_usage_line_stops_at_placeholders() {
    let p = parse_usage_line("Usage: vidu-cli quota <COMMAND>");
    assert_eq!(p, vec!["vidu-cli", "quota"]);
}

#[test]
fn strip_ansi_removes_csi_sequences() {
    let s = "\u{1b}[1m\u{1b}[4mUsage:\u{1b}[0m \u{1b}[1mvidu-cli\u{1b}[0m [COMMAND]";
    assert_eq!(strip_ansi(s), "Usage: vidu-cli [COMMAND]");
}

#[test]
fn strip_ansi_drops_other_escapes_and_a_trailing_escape() {
    assert_eq!(strip_ansi("a\u{1b}Mb"), "ab");
    assert_eq!(strip_ansi("abc\u{1b}"), "abc");
    assert_eq!(strip_ansi("\u{1b}[31"), "");
    assert_eq!(strip_ansi("plain"), "plain");
}

#[test]
fn parse_usage_line_finds_the_usage_line_among_others() {
    let p = parse_usage_line("error: oops\n\n  Usage: vidu-cli element list [OPTIONS]\n\nmore");
    assert_eq!(p, vec!["vidu-cli", "element", "list"]);
}

#[test]
fn parse_usage_line_without_a_path_gives_the_program() {
    assert_eq!(parse_usage_line("Usage: <X>"), vec!["vidu-cli"]);
    assert_eq!(parse_usage_line(""), vec!["vidu-cli"]);
    assert_eq!(parse_usage_line("Usage:"), vec!["vidu-cli"]);
}

#[test]
fn parse_usage_line_skips_a_repeated_usage_word() {
    let p = parse_usage_line("Usage: Usage: vidu-cli task -h");
    assert_eq!(p, vec!["vidu-cli", "task"]);
}

#[test]
fn extract_usage_path_prefers_usage_context_then_rendered() {
    let p = extract_usage_path(Some("Usage: vidu-cli task get <ID>"), "whatever");
    assert_eq!(p, vec!["vidu-cli", "task", "get"]);
    let p = extract_usage_path(
        Some("Usage: vidu-cli [COMMAND]"),
        "error: x\n\nUsage: vidu-cli quota pass\n",
    );
    assert_eq!(p, vec!["vidu-cli", "quota", "pass"]);
    let p = extract_usage_path(None, "error: nothing here");
    assert_eq!(p, vec!["vidu-cli"]);
    let p = extract_usage_path(None, "\u{1b}[1mUsage:\u{1b}[0m vidu-cli task submit [OPTIONS]");
    assert_eq!(p, vec!["vidu-cli", "task", "submit"]);
}

#[test]
fn resolve_subcommand_walks_down_and_stops_at_unknown_names() {
    let mut task = leaf("task");
    task.names = strings(&["t"]);
    task.subcommands = vec![leaf("submit"), leaf("get")];
    let root = CommandNode {
        name: "vidu-cli".to_string(),
        names: vec![],
        hidden: false,
        subcommands: vec![task, leaf("quota")],
    };
    let r = resolve_subcommand(&root, &strings(&["vidu-cli", "task", "submit"]));
    assert_eq!(r.name, "submit");
    let r = resolve_subcommand(&root, &strings(&["vidu-cli", "t", "nope", "get"]));
    assert_eq!(r.name, "task");
    let r = resolve_subcommand(&root, &strings(&["vidu-cli"]));
    assert_eq!(r.name, "vidu-cli");
}

#[test]
fn available_subcommands_are_sorted_without_help_or_hidden() {
    let mut secret = leaf("secret");
    secret.hidden = true;
    let root = CommandNode {
        name: "vidu-cli".to_string(),
        names: vec![],
        hidden: false,
        subcommands: vec![leaf("upload"), leaf("help"), secret, leaf("element"), leaf("task")],
    };
    assert_eq!(available_subcommands(&root), vec!["element", "task", "upload"]);
}

#[test]
fn display_requests_are_not_errors() {
    assert!(is_display_request(ParseErrorKind::DisplayHelp));
    assert!(is_display_request(ParseErrorKind::DisplayVersion));
    assert!(is_display_request(ParseErrorKind::DisplayHelpOnMissingArgumentOrSubcommand));
    assert!(!is_display_request(ParseErrorKind::InvalidValue));
    assert!(!is_display_request(ParseErrorKind::Other));
}

#[test]
fn suggestion_prefers_subcommand_then_value_and_first_of_a_list() {
    let mut e = report(ParseErrorKind::InvalidSubcommand, "x");
    assert_eq!(suggested_value(&e), None);
    e.suggested_value = ContextEntry::Text("v".to_string());
    assert_eq!(suggested_value(&e), Some("v".to_string()));
    e.suggested_subcommand = ContextEntry::Texts(strings(&["a", "b"]));
    assert_eq!(suggested_value(&e), Some("a".to_string()));
    e.suggested_subcommand = ContextEntry::Texts(vec![]);
    assert_eq!(suggested_value(&e), Some("v".to_string()));
}

#[test]
fn invalid_subcommand_message_exact_text() {
    let mut e = report(ParseErrorKind::InvalidSubcommand, "clap says no");
    e.invalid_subcommand = ContextEntry::Text("quot".to_string());
    let out = render_invalid_subcommand(&e, "vidu-cli", &strings(&["quota", "task"]));
    assert_eq!(
        out,
        "error: unrecognized subcommand 'quot' under 'vidu-cli'\n  available: quota, task\n  tip: run `vidu-cli --help` to see usage\n"
    );
    e.suggested_subcommand = ContextEntry::Texts(strings(&["quota"]));
    let out = render_invalid_subcommand(&e, "vidu-cli", &strings(&["quota", "task"]));
    assert_eq!(
        out,
        "error: unrecognized subcommand 'quot' under 'vidu-cli'\n  available: quota, task\n  tip: did you mean 'quota'?  (run: vidu-cli quota --help)\n"
    );
    assert_eq!(render_invalid_subcommand(&e, "vidu-cli", &vec![]), "clap says no");
    let e = report(ParseErrorKind::InvalidSubcommand, "r");
    let out = render_invalid_subcommand(&e, "s", &strings(&["a"]));
    assert!(out.starts_with("error: unrecognized subcommand '<unknown>' under 's'\n"));
}

#[test]
fn invalid_value_message_exact_text() {
    let mut e = report(ParseErrorKind::InvalidValue, "fallback");
    assert_eq!(render_invalid_value(&e, "vidu-cli task"), "fallback");
    e.invalid_arg = ContextEntry::Text("--codec <CODEC>".to_string());
    assert_eq!(
        render_invalid_value(&e, "vidu-cli"),
        "error: invalid value for '--codec <CODEC>'\n"
    );
    e.invalid_value = ContextEntry::Text("h266".to_string());
    e.valid_value = ContextEntry::Texts(strings(&["h264", "h265"]));
    e.suggested_value = ContextEntry::Text("h265".to_string());
    assert_eq!(
        render_invalid_value(&e, "vidu-cli task submit"),
        "error: invalid value 'h266' for '--codec <CODEC>'\n  possible values: h264, h265\n  tip: did you mean 'h265'?\n  tip: run `vidu-cli task submit --help` for parameter docs\n"
    );
}

#[test]
fn missing_required_message_exact_text() {
    let mut e = report(ParseErrorKind::MissingRequiredArgument, "fallback");
    assert_eq!(render_missing_required(&e, "vidu-cli"), "fallback");
    e.invalid_arg = ContextEntry::Texts(vec![]);
    assert_eq!(render_missing_required(&e, "vidu-cli"), "fallback");
    e.invalid_arg = ContextEntry::Texts(strings(&["\u{1b}[1m--type <TYPE>\u{1b}[0m", "--prompt <PROMPT>"]));
    assert_eq!(
        render_missing_required(&e, "vidu-cli task submit"),
        "error: missing required arguments:\n  - --type <TYPE>\n  - --prompt <PROMPT>\n  tip: run `vidu-cli task submit --help` for parameter docs\n"
    );
}

#[test]
fn bare_word_unknown_argument_is_treated_as_a_bad_subcommand() {
    let root = CommandNode {
        name: "vidu-cli".to_string(),
        names: vec![],
        hidden: false,
        subcommands: vec![leaf("task"), leaf("quota")],
    };
    let mut e = report(ParseErrorKind::UnknownArgument, "clap text");
    e.invalid_arg = ContextEntry::Text("tsak".to_string());
    let out = render_friendly(&root, &e);
    assert!(out.contains("unrecognized subcommand 'tsak' under 'vidu-cli'"), "got: {out}");
    assert!(out.contains("available: quota, task"), "got: {out}");
    e.invalid_arg = ContextEntry::Text("--tsak".to_string());
    assert_eq!(render_friendly(&root, &e), "clap text");
    e.kind = ParseErrorKind::Other;
    assert_eq!(render_friendly(&root, &e), "clap text");
}
