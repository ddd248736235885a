//! Unit tests of the smaller pieces: configuration, argument-error exit
//! codes, result classification, argument vectors, text utilities, and the
//! state machine driven one transition at a time.

use brewup::cli::{arg_issue_exit_code, ArgIssue, CliArgs};
use brewup::config::Config;
use brewup::outcome::{classify_invocation, Failure, StepOutcome, SubprocessResult};
use brewup::text::{blank, split_lines, trim_bytes};
use brewup::workflow::{
    apply_step_policy, header_lines, pre_lines, state_action, step_argv, transition, Action, Event,
    OutputLine, State, Step,
};

fn ok_result(stdout: &str) -> Result<SubprocessResult, Vec<u8>> {
    Ok(SubprocessResult {
        success: true,
        stdout: stdout.as_bytes().to_vec(),
        stderr: Vec::new(),
    })
}

/// Tests that the library modules are accessible and compose.
#[test]
fn test_module_access() {
    let _config = Config::new();
    let _args = CliArgs {
        verbose: true,
        dry_run: false,
        skip_cleanup: false,
    };
    assert!(true);
}

#[test]
fn test_config_defaults() {
    let config = Config::new();
    assert_eq!(config.app_name, "BrewUp");
    assert_eq!(config.cleanup_args(), &["cleanup", "--prune=all"]);
    assert_eq!(config.max_packages_display(), 10);
    let by_default = Config::default();
    assert_eq!(by_default.max_packages_display, 10);
}

#[test]
fn test_arg_issue_exit_codes() {
    assert_eq!(arg_issue_exit_code(&ArgIssue::HelpRequested), 0);
    assert_eq!(arg_issue_exit_code(&ArgIssue::VersionRequested), 0);
    assert_eq!(arg_issue_exit_code(&ArgIssue::Malformed), 2);
}

#[test]
fn test_classify_spawn_failure() {
    let o = classify_invocation(Err(b"no such file".to_vec()));
    assert_eq!(o, StepOutcome::FailedFatal(Failure::Spawn(b"no such file".to_vec())));
}

#[test]
fn test_classify_status_failure_trims_stderr() {
    let o = classify_invocation(Ok(SubprocessResult {
        success: false,
        stdout: Vec::new(),
        stderr: b"\n  locked \t\n".to_vec(),
    }));
    assert_eq!(o, StepOutcome::FailedFatal(Failure::Status(b"locked".to_vec())));
}

#[test]
fn test_classify_success() {
    let o = classify_invocation(ok_result("fine"));
    assert_eq!(o, StepOutcome::Succeeded);
}

#[test]
fn test_policy_downgrades_cleanup_failures_only() {
    let fatal = StepOutcome::FailedFatal(Failure::Spawn(b"x".to_vec()));
    assert_eq!(
        apply_step_policy(&Step::Cleanup, fatal),
        StepOutcome::SucceededWithWarning(Failure::Spawn(b"x".to_vec()))
    );
    let fatal = StepOutcome::FailedFatal(Failure::Status(b"y".to_vec()));
    assert_eq!(
        apply_step_policy(&Step::Update, fatal),
        StepOutcome::FailedFatal(Failure::Status(b"y".to_vec()))
    );
    assert_eq!(
        apply_step_policy(&Step::Cleanup, StepOutcome::Succeeded),
        StepOutcome::Succeeded
    );
}

#[test]
fn test_step_argv_vectors() {
    let config = Config::new();
    assert_eq!(step_argv(&Step::Update, &config), vec!["update"]);
    assert_eq!(step_argv(&Step::Upgrade, &config), vec!["upgrade"]);
    assert_eq!(step_argv(&Step::Cleanup, &config), vec!["cleanup", "--prune=all"]);
    assert_eq!(step_argv(&Step::Summary, &config), vec!["list", "--versions"]);
}

#[test]
fn test_split_lines_variants() {
    let as_lines = |s: &str| -> Vec<Vec<u8>> { split_lines(&s.as_bytes().to_vec()) };
    assert_eq!(as_lines(""), Vec::<Vec<u8>>::new());
    assert_eq!(as_lines("a"), vec![b"a".to_vec()]);
    assert_eq!(as_lines("a\n"), vec![b"a".to_vec()]);
    assert_eq!(as_lines("a\nb"), vec![b"a".to_vec(), b"b".to_vec()]);
    assert_eq!(as_lines("a\r\nb\r\n"), vec![b"a".to_vec(), b"b".to_vec()]);
    assert_eq!(as_lines("\n"), vec![Vec::new()]);
    assert_eq!(as_lines("\n\n"), vec![Vec::new(), Vec::new()]);
    assert_eq!(as_lines("a\n\nb"), vec![b"a".to_vec(), Vec::new(), b"b".to_vec()]);
}

#[test]
fn test_trim_and_blank() {
    assert_eq!(trim_bytes(&b"  keg  ".to_vec()), b"keg".to_vec());
    assert_eq!(trim_bytes(&b"\t\r\n".to_vec()), Vec::<u8>::new());
    assert_eq!(trim_bytes(&b"a b".to_vec()), b"a b".to_vec());
    assert!(blank(&Vec::new()));
    assert!(blank(&b" \t\r\n".to_vec()));
    assert!(!blank(&b" x ".to_vec()));
}

#[test]
fn test_machine_stepwise_successful_run() {
    let args = CliArgs {
        verbose: true,
        dry_run: false,
        skip_cleanup: false,
    };
    let config = Config::new();
    let mut state = State::AtGate;
    let mut invoked = Vec::new();
    let mut all_lines: Vec<OutputLine> = Vec::new();
    loop {
        let action = state_action(&state, &args);
        all_lines.extend(pre_lines(&state, &args));
        let event = match action {
            Action::Probe => Event::ProbeResult(true),
            Action::Invoke(step) => {
                invoked.push(step);
                Event::Invoked(ok_result("done deal"))
            }
            Action::Proceed => Event::Proceed,
            Action::Halt(code) => {
                assert_eq!(code, 0);
                break;
            }
        };
        let (next, lines) = transition(&state, &args, &config, event);
        all_lines.extend(lines);
        state = next;
    }
    assert_eq!(
        invoked,
        vec![Step::Update, Step::Upgrade, Step::Cleanup, Step::Summary]
    );
    assert!(all_lines.contains(&OutputLine::CompletionBanner));
    assert!(all_lines.contains(&OutputLine::EchoCommand(Step::Update)));
}

#[test]
fn test_quiet_mode_omits_echo_and_spawn_warning() {
    let args = CliArgs {
        verbose: false,
        dry_run: false,
        skip_cleanup: false,
    };
    let lines = pre_lines(&State::AtStep(Step::Update), &args);
    assert_eq!(lines, vec![OutputLine::StepAnnounce(Step::Update)]);
    let config = Config::new();
    let (state, lines) = transition(
        &State::AtStep(Step::Summary),
        &args,
        &config,
        Event::Invoked(Err(b"lost".to_vec())),
    );
    assert_eq!(state, State::Done(0));
    assert_eq!(lines, Vec::new());
}

#[test]
fn test_dry_run_line_order() {
    let args = CliArgs {
        verbose: true,
        dry_run: true,
        skip_cleanup: false,
    };
    let config = Config::new();
    let t = brewup::workflow::run_workflow(
        &args,
        &config,
        true,
        ok_result(""),
        ok_result(""),
        ok_result(""),
        ok_result(""),
    );
    assert_eq!(
        t.lines,
        vec![
            OutputLine::Banner,
            OutputLine::DryRunNotice,
            OutputLine::StepAnnounce(Step::Update),
            OutputLine::WouldRun(Step::Update),
            OutputLine::StepAnnounce(Step::Upgrade),
            OutputLine::WouldRun(Step::Upgrade),
            OutputLine::StepAnnounce(Step::Cleanup),
            OutputLine::WouldRun(Step::Cleanup),
            OutputLine::StepAnnounce(Step::Summary),
            OutputLine::WouldRun(Step::Summary),
            OutputLine::CompletionBanner,
        ]
    );
}

#[test]
fn test_machine_header_lines() {
    let dry = CliArgs {
        verbose: true,
        dry_run: true,
        skip_cleanup: false,
    };
    let real = CliArgs {
        verbose: true,
        dry_run: false,
        skip_cleanup: false,
    };
    assert_eq!(
        header_lines(&dry),
        vec![OutputLine::Banner, OutputLine::DryRunNotice]
    );
    assert_eq!(header_lines(&real), vec![OutputLine::Banner]);
}
