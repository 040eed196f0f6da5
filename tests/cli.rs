use lfd::config::{parse_args, CliRequest};

fn args(v: &[&str]) -> Vec<String> {
    v.iter().map(|s| s.to_string()).collect()
}

#[test]
fn help_and_version_come_first() {
    assert!(matches!(parse_args(&args(&["lfd", "-h"])), CliRequest::Help));
    assert!(matches!(parse_args(&args(&["lfd", "--help", "f", "V", "echo"])), CliRequest::Help));
    assert!(matches!(parse_args(&args(&["lfd", "-v"])), CliRequest::Version));
    assert!(matches!(parse_args(&args(&["lfd", "--version"])), CliRequest::Version));
}

#[test]
fn help_only_as_first_argument() {
    let r = parse_args(&args(&["lfd", "f", "V", "echo", "-h"]));
    match r {
        CliRequest::Run(c) => assert_eq!(c.template, args(&["echo", "-h"])),
        _ => panic!("expected a run"),
    }
}

#[test]
fn missing_arguments() {
    assert!(matches!(parse_args(&args(&[])), CliRequest::MissingArguments));
    assert!(matches!(parse_args(&args(&["lfd"])), CliRequest::MissingArguments));
    assert!(matches!(parse_args(&args(&["lfd", "f", "V"])), CliRequest::MissingArguments));
    assert!(matches!(parse_args(&args(&["lfd", "-q", "f", "V"])), CliRequest::MissingArguments));
}

#[test]
fn verbose_run_config() {
    match parse_args(&args(&["lfd", "urls.txt", "URL", "curl", "-s", "URL"])) {
        CliRequest::Run(c) => {
            assert_eq!(c.file_path, "urls.txt");
            assert_eq!(c.token, "URL");
            assert_eq!(c.template, args(&["curl", "-s", "URL"]));
            assert!(!c.quiet);
        }
        _ => panic!("expected a run"),
    }
}

#[test]
fn quiet_run_config() {
    match parse_args(&args(&["lfd", "--quiet", "dirs.txt", "DIR", "mkdir"])) {
        CliRequest::Run(c) => {
            assert_eq!(c.file_path, "dirs.txt");
            assert_eq!(c.token, "DIR");
            assert_eq!(c.template, args(&["mkdir"]));
            assert!(c.quiet);
        }
        _ => panic!("expected a run"),
    }
}

#[test]
fn quiet_flag_only_first() {
    match parse_args(&args(&["lfd", "f", "-q", "echo"])) {
        CliRequest::Run(c) => {
            assert!(!c.quiet);
            assert_eq!(c.file_path, "f");
            assert_eq!(c.token, "-q");
        }
        _ => panic!("expected a run"),
    }
}
