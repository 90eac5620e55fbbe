use up_utils::invocation::parse_invocation;
use up_utils::outcome::{child_exit_code, conclude_run, RunError, TerminationOutcome};
use up_utils::report::{format_human_line, format_posix_line, render_report};
use up_utils::resolve::{resolve_command, validate_target, TargetStatus};
use up_utils::timing::{TimeSpan, Timing};

fn strings(items: &[&str]) -> Vec<String> {
    items.iter().map(|s| s.to_string()).collect()
}

#[test]
fn parse_empty_command_line() {
    assert!(parse_invocation(&strings(&[])).is_none());
}

#[test]
fn parse_only_flag() {
    assert!(parse_invocation(&strings(&["-p"])).is_none());
    assert!(parse_invocation(&strings(&["--posix"])).is_none());
}

#[test]
fn parse_plain_invocation() {
    let inv = parse_invocation(&strings(&["ls", "-l", "x"])).unwrap();
    assert_eq!(inv.program, "ls");
    assert_eq!(inv.args, strings(&["-l", "x"]));
    assert!(!inv.posix);
}

#[test]
fn parse_short_posix_flag() {
    let inv = parse_invocation(&strings(&["-p", "sleep", "1"])).unwrap();
    assert_eq!(inv.program, "sleep");
    assert_eq!(inv.args, strings(&["1"]));
    assert!(inv.posix);
}

#[test]
fn parse_long_posix_flag() {
    let inv = parse_invocation(&strings(&["--posix", "ls"])).unwrap();
    assert_eq!(inv.program, "ls");
    assert!(inv.args.is_empty());
    assert!(inv.posix);
}

#[test]
fn parse_trailing_arguments_stay_verbatim() {
    let inv = parse_invocation(&strings(&["ls", "-p", "--posix"])).unwrap();
    assert_eq!(inv.program, "ls");
    assert_eq!(inv.args, strings(&["-p", "--posix"]));
    assert!(!inv.posix);
}

#[test]
fn posix_line_basic() {
    let s = format_posix_line("real", &TimeSpan::new(1, 500_000_000));
    assert_eq!(s, "real 1.5s");
}

#[test]
fn posix_line_whole_seconds() {
    let s = format_posix_line("user", &TimeSpan::new(2, 0));
    assert_eq!(s, "user 2.0s");
}

#[test]
fn posix_line_small_fraction() {
    let s = format_posix_line("sys", &TimeSpan::new(0, 304_311));
    assert_eq!(s, "sys 0.000304311s");
}

#[test]
fn human_line_basic() {
    let s = format_human_line("real", &TimeSpan::new(125, 4_000_000));
    assert_eq!(s, "real:   2m5.004s");
}

#[test]
fn human_line_truncates_to_millis() {
    let s = format_human_line("sys", &TimeSpan::new(0, 999_999_999));
    assert_eq!(s, "sys:    0m0.999s");
}

#[test]
fn posix_lines_match_pattern() {
    let t = Timing::new(
        TimeSpan::new(1, 500_000_000),
        TimeSpan::new(0, 0),
        TimeSpan::new(0, 120_000),
    );
    let labels = ["real ", "user ", "sys "];
    for (line, label) in render_report(&t, true).iter().zip(labels.iter()) {
        assert!(line.starts_with(label));
        assert!(line.ends_with('s'));
        let body = &line[label.len()..line.len() - 1];
        let (secs, frac) = body.split_once('.').unwrap();
        assert!(!secs.is_empty() && secs.chars().all(|c| c.is_ascii_digit()));
        assert!(!frac.is_empty() && frac.chars().all(|c| c.is_ascii_digit()));
    }
}

#[test]
fn human_lines_match_pattern() {
    let t = Timing::new(
        TimeSpan::new(61, 250_000_000),
        TimeSpan::new(0, 0),
        TimeSpan::new(0, 1_000_000),
    );
    let labels = ["real:", "user:", "sys:"];
    for (line, label) in render_report(&t, false).iter().zip(labels.iter()) {
        assert!(line.starts_with(label));
        let rest = line[label.len()..].trim_start_matches(' ');
        assert!(line.ends_with('s'));
        let rest = &rest[..rest.len() - 1];
        let (mins, secs) = rest.split_once('m').unwrap();
        assert!(!mins.is_empty() && mins.chars().all(|c| c.is_ascii_digit()));
        let (whole, millis) = secs.split_once('.').unwrap();
        assert!(!whole.is_empty() && whole.chars().all(|c| c.is_ascii_digit()));
        assert_eq!(millis.len(), 3);
        assert!(millis.chars().all(|c| c.is_ascii_digit()));
    }
}

#[test]
fn report_always_has_three_lines() {
    let t = Timing::new(TimeSpan::new(0, 0), TimeSpan::new(0, 0), TimeSpan::new(0, 0));
    let (lines, code) = conclude_run(&t, true, &TerminationOutcome::ExitedWithCode(3));
    assert_eq!(lines.len(), 3);
    assert_eq!(code, 3);
    let (lines, code) = conclude_run(&t, false, &TerminationOutcome::TerminatedAbnormally);
    assert_eq!(lines.len(), 3);
    assert_eq!(code, 1);
}

#[test]
fn child_exit_codes_propagate() {
    for k in [0, 1, 42, 126, 127, 255] {
        assert_eq!(child_exit_code(&TerminationOutcome::ExitedWithCode(k)), k);
    }
    assert_eq!(child_exit_code(&TerminationOutcome::TerminatedAbnormally), 1);
}

#[test]
fn error_exit_codes_follow_the_table() {
    let program = "prog".to_string();
    let path = "/tmp/prog".to_string();
    assert_eq!(RunError::NotFound { program: program.clone() }.exit_code(), 127);
    assert_eq!(RunError::MissingAfterResolve { path: path.clone() }.exit_code(), 127);
    assert_eq!(RunError::NotRegularFile { path: path.clone() }.exit_code(), 126);
    assert_eq!(
        RunError::ProbeFailed { name: "prog".to_string(), detail: "denied".to_string() }
            .exit_code(),
        126
    );
    assert_eq!(
        RunError::SpawnFailed { path: path.clone(), detail: "exec format".to_string() }
            .exit_code(),
        2
    );
}

#[test]
fn error_messages_follow_the_table() {
    assert_eq!(
        RunError::NotFound { program: "frobnicate".to_string() }.message(),
        "frobnicate: command not found"
    );
    assert_eq!(
        RunError::MissingAfterResolve { path: "/bin/gone".to_string() }.message(),
        "No such file: /bin/gone"
    );
    assert_eq!(
        RunError::NotRegularFile { path: "/tmp".to_string() }.message(),
        "/tmp: Is not a regular file"
    );
    assert_eq!(
        RunError::ProbeFailed { name: "p".to_string(), detail: "denied".to_string() }.message(),
        "p: denied"
    );
    assert_eq!(
        RunError::SpawnFailed { path: "/bin/x".to_string(), detail: "boom".to_string() }
            .message(),
        "/bin/x: boom"
    );
}

#[test]
fn missing_binary_resolves_to_not_found() {
    let program = "no-such-program-anywhere-zzz".to_string();
    let err = resolve_command(&program).unwrap_err();
    assert_eq!(err.exit_code(), 127);
    assert_eq!(err.message(), "no-such-program-anywhere-zzz: command not found");
}

#[test]
fn existing_binary_resolves() {
    assert!(resolve_command(&"sh".to_string()).is_ok());
}

#[test]
fn directory_target_is_refused() {
    let path = "/tmp".to_string();
    let err = validate_target(&path, TargetStatus::NotRegular).unwrap_err();
    assert_eq!(err.exit_code(), 126);
    assert_eq!(err.message(), "/tmp: Is not a regular file");
}

#[test]
fn regular_target_is_accepted() {
    assert!(validate_target(&"/bin/sh".to_string(), TargetStatus::Regular).is_ok());
}

#[test]
fn vanished_target_is_refused() {
    let path = "/bin/gone".to_string();
    let err = validate_target(&path, TargetStatus::Missing).unwrap_err();
    assert_eq!(err.exit_code(), 127);
    assert_eq!(err.message(), "No such file: /bin/gone");
}

#[test]
fn unprobeable_target_is_refused() {
    let err = validate_target(
        &"/root/secret/prog".to_string(),
        TargetStatus::Inaccessible {
            name: "prog".to_string(),
            detail: "permission denied".to_string(),
        },
    )
    .unwrap_err();
    assert_eq!(err.exit_code(), 126);
    assert_eq!(err.message(), "prog: permission denied");
}
