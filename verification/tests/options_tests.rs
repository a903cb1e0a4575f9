use trackdl::options::{choose_invocation, parse_opts, usage, FailKind, Invocation};

fn args(list: &[&str]) -> Vec<String> {
    list.iter().map(|a| a.to_string()).collect()
}

fn run_of(list: &[&str]) -> (String, String, String, Vec<String>) {
    match parse_opts(&args(list)).unwrap() {
        Invocation::Run(p) => (p.user, p.pass, p.format, p.input),
        Invocation::Usage => panic!("usage asked for"),
    }
}

fn is_usage(list: &[&str]) -> bool {
    matches!(parse_opts(&args(list)).unwrap(), Invocation::Usage)
}

fn failure_of(list: &[&str]) -> (FailKind, String) {
    let e = parse_opts(&args(list)).unwrap_err();
    (e.kind, e.option)
}

#[test]
fn a_run_with_the_default_template() {
    let (user, pass, format, input) = run_of(&["-u", "me", "-p", "secret", "spotify:track:x", "y"]);
    assert_eq!(user, "me");
    assert_eq!(pass, "secret");
    assert_eq!(format, "{author}/{album}/{name}.{ext}");
    assert_eq!(input, args(&["spotify:track:x", "y"]));
}

#[test]
fn a_run_with_a_template_and_long_names() {
    let (user, pass, format, input) =
        run_of(&["a", "--user=me", "--pass", "secret", "b", "--format", "out/{name}", "c"]);
    assert_eq!(user, "me");
    assert_eq!(pass, "secret");
    assert_eq!(format, "out/{name}");
    assert_eq!(input, args(&["a", "b", "c"]));
    let (_, _, format, _) = run_of(&["-ume", "-psecret", "-fx/{ext}", "r"]);
    assert_eq!(format, "x/{ext}");
}

#[test]
fn arguments_after_two_dashes_are_free() {
    let (_, _, _, input) = run_of(&["-u", "me", "-p", "s", "--", "-h", "-x"]);
    assert_eq!(input, args(&["-h", "-x"]));
}

#[test]
fn help_or_a_missing_part_asks_for_usage() {
    assert!(is_usage(&["-h"]));
    assert!(is_usage(&["--help", "-u", "me", "-p", "s", "r"]));
    assert!(is_usage(&["-u", "me", "r"]));
    assert!(is_usage(&["-p", "s", "r"]));
    assert!(is_usage(&["-u", "me", "-p", "s"]));
    assert!(is_usage(&[]));
    assert!(is_usage(&["r"]));
}

#[test]
fn each_kind_of_failure() {
    assert_eq!(failure_of(&["-z"]), (FailKind::UnrecognizedOption, "z".to_string()));
    assert_eq!(failure_of(&["--zeta", "r"]), (FailKind::UnrecognizedOption, "zeta".to_string()));
    assert_eq!(failure_of(&["r", "-u"]), (FailKind::ArgumentMissing, "u".to_string()));
    assert_eq!(failure_of(&["--pass"]), (FailKind::ArgumentMissing, "pass".to_string()));
    assert_eq!(failure_of(&["-u", "a", "-u", "b"]), (FailKind::OptionDuplicated, "user".to_string()));
    assert_eq!(failure_of(&["--help=yes"]), (FailKind::UnexpectedArgument, "help".to_string()));
}

#[test]
fn choose_invocation_decides_from_what_was_found() {
    let s = |t: &str| Some(t.to_string());
    match choose_invocation(false, s("u"), s("p"), None, args(&["r"])) {
        Invocation::Run(p) => {
            assert_eq!(p.user, "u");
            assert_eq!(p.pass, "p");
            assert_eq!(p.format, "{author}/{album}/{name}.{ext}");
            assert_eq!(p.input, args(&["r"]));
        }
        Invocation::Usage => panic!("usage asked for"),
    }
    match choose_invocation(false, s("u"), s("p"), s("f/{name}"), args(&["r", "q"])) {
        Invocation::Run(p) => assert_eq!(p.format, "f/{name}"),
        Invocation::Usage => panic!("usage asked for"),
    }
    assert!(matches!(choose_invocation(true, s("u"), s("p"), None, args(&["r"])), Invocation::Usage));
    assert!(matches!(choose_invocation(false, None, s("p"), None, args(&["r"])), Invocation::Usage));
    assert!(matches!(choose_invocation(false, s("u"), None, None, args(&["r"])), Invocation::Usage));
    assert!(matches!(choose_invocation(false, s("u"), s("p"), None, args(&[])), Invocation::Usage));
}

#[test]
fn the_help_text_lists_the_options_under_the_heading() {
    let text = usage("prog");
    assert!(text.starts_with("Usage: prog [OPTIONS] URIs...\n\nOptions:\n"));
    assert!(text.contains("-h, --help "));
    assert!(text.contains("-u, --user USER"));
    assert!(text.contains("-p, --pass PASS"));
    assert!(text.contains("-f, --format FMT"));
    assert!(text.contains("print the help menu"));
    assert!(text.contains("user login name, required"));
}
