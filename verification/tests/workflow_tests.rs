//! Whole-run scenarios driven through the simulated runner.

use brewup::cli::CliArgs;
use brewup::config::Config;
use brewup::outcome::SubprocessResult;
use brewup::workflow::{run_workflow, OutputLine, Step};

fn ok_result(stdout: &str) -> Result<SubprocessResult, Vec<u8>> {
    Ok(SubprocessResult {
        success: true,
        stdout: stdout.as_bytes().to_vec(),
        stderr: Vec::new(),
    })
}

fn status_failure(stderr: &str) -> Result<SubprocessResult, Vec<u8>> {
    Ok(SubprocessResult {
        success: false,
        stdout: Vec::new(),
        stderr: stderr.as_bytes().to_vec(),
    })
}

fn spawn_failure(message: &str) -> Result<SubprocessResult, Vec<u8>> {
    Err(message.as_bytes().to_vec())
}

fn real_args() -> CliArgs {
    CliArgs {
        verbose: true,
        dry_run: false,
        skip_cleanup: false,
    }
}

#[test]
fn test_dry_run_invokes_nothing() {
    let args = CliArgs {
        verbose: true,
        dry_run: true,
        skip_cleanup: false,
    };
    let config = Config::new();
    // Even with every result poisoned, a dry run must consult none of them.
    let t = run_workflow(
        &args,
        &config,
        true,
        spawn_failure("boom"),
        spawn_failure("boom"),
        spawn_failure("boom"),
        spawn_failure("boom"),
    );
    assert_eq!(t.exit_code, 0);
    assert!(t.invocations.is_empty());
    for step in [Step::Update, Step::Upgrade, Step::Cleanup, Step::Summary] {
        assert!(t.lines.contains(&OutputLine::WouldRun(step)));
    }
    assert!(t.lines.contains(&OutputLine::CompletionBanner));
}

#[test]
fn test_gate_failure_aborts_run() {
    let args = real_args();
    let config = Config::new();
    let t = run_workflow(
        &args,
        &config,
        false,
        ok_result(""),
        ok_result(""),
        ok_result(""),
        ok_result(""),
    );
    assert_eq!(t.exit_code, 1);
    assert!(t.invocations.is_empty());
    assert_eq!(t.lines, vec![OutputLine::Banner, OutputLine::GateFailure]);
}

#[test]
fn test_update_failure_is_fatal() {
    let args = real_args();
    let config = Config::new();
    let t = run_workflow(
        &args,
        &config,
        true,
        status_failure("  update broke \n"),
        ok_result(""),
        ok_result(""),
        ok_result(""),
    );
    assert_eq!(t.exit_code, 1);
    assert_eq!(t.invocations, vec![Step::Update]);
    // The reported standard-error text is trimmed.
    assert_eq!(
        t.lines.last().unwrap(),
        &OutputLine::FatalStepError(
            Step::Update,
            brewup::outcome::Failure::Status(b"update broke".to_vec())
        )
    );
}

#[test]
fn test_upgrade_failure_is_fatal() {
    let args = real_args();
    let config = Config::new();
    let t = run_workflow(
        &args,
        &config,
        true,
        ok_result("updated"),
        spawn_failure("gone"),
        ok_result(""),
        ok_result(""),
    );
    assert_eq!(t.exit_code, 1);
    assert_eq!(t.invocations, vec![Step::Update, Step::Upgrade]);
    assert_eq!(
        t.lines.last().unwrap(),
        &OutputLine::FatalStepError(Step::Upgrade, brewup::outcome::Failure::Spawn(b"gone".to_vec()))
    );
}

#[test]
fn test_cleanup_failure_only_warns() {
    let args = real_args();
    let config = Config::new();
    let t = run_workflow(
        &args,
        &config,
        true,
        ok_result("updated"),
        ok_result("upgraded"),
        spawn_failure("cleanup gone"),
        ok_result("pkg 1.0\n"),
    );
    assert_eq!(t.exit_code, 0);
    assert_eq!(
        t.invocations,
        vec![Step::Update, Step::Upgrade, Step::Cleanup, Step::Summary]
    );
    assert!(t.lines.contains(&OutputLine::CleanupWarning(
        brewup::outcome::Failure::Spawn(b"cleanup gone".to_vec())
    )));
    // The summary still executed.
    assert!(t.lines.contains(&OutputLine::PackageCount(1)));
    assert!(t.lines.contains(&OutputLine::CompletionBanner));
}

#[test]
fn test_skip_cleanup_never_invokes_it() {
    let args = CliArgs {
        verbose: true,
        dry_run: false,
        skip_cleanup: true,
    };
    let config = Config::new();
    let t = run_workflow(
        &args,
        &config,
        true,
        ok_result(""),
        ok_result(""),
        spawn_failure("must not be consulted"),
        ok_result(""),
    );
    assert_eq!(t.exit_code, 0);
    assert_eq!(
        t.invocations,
        vec![Step::Update, Step::Upgrade, Step::Summary]
    );
    let notices = t
        .lines
        .iter()
        .filter(|l| **l == OutputLine::SkipCleanupNotice)
        .count();
    assert_eq!(notices, 1);
}

#[test]
fn test_skip_cleanup_in_dry_run() {
    let args = CliArgs {
        verbose: true,
        dry_run: true,
        skip_cleanup: true,
    };
    let config = Config::new();
    let t = run_workflow(
        &args,
        &config,
        true,
        ok_result(""),
        ok_result(""),
        ok_result(""),
        ok_result(""),
    );
    assert_eq!(t.exit_code, 0);
    assert!(t.invocations.is_empty());
    let notices = t
        .lines
        .iter()
        .filter(|l| **l == OutputLine::SkipCleanupNotice)
        .count();
    assert_eq!(notices, 1);
    assert!(!t.lines.contains(&OutputLine::WouldRun(Step::Cleanup)));
}

#[test]
fn test_blank_output_shows_done_ack() {
    let args = real_args();
    let config = Config::new();
    let t = run_workflow(
        &args,
        &config,
        true,
        ok_result("  \n"),
        ok_result("upgraded two kegs"),
        ok_result(""),
        ok_result(""),
    );
    assert_eq!(t.exit_code, 0);
    assert!(t.lines.contains(&OutputLine::DoneAck));
    assert!(t
        .lines
        .contains(&OutputLine::ToolOutput(b"upgraded two kegs".to_vec())));
}

#[test]
fn test_listing_status_failure_warns() {
    let args = real_args();
    let config = Config::new();
    let t = run_workflow(
        &args,
        &config,
        true,
        ok_result(""),
        ok_result(""),
        ok_result(""),
        status_failure("denied"),
    );
    assert_eq!(t.exit_code, 0);
    assert!(t.lines.contains(&OutputLine::ListStatusWarning));
    assert!(t.lines.contains(&OutputLine::CompletionBanner));
}

#[test]
fn test_listing_spawn_failure_warns_verbosely() {
    let args = real_args();
    let config = Config::new();
    let t = run_workflow(
        &args,
        &config,
        true,
        ok_result(""),
        ok_result(""),
        ok_result(""),
        spawn_failure("lost"),
    );
    assert_eq!(t.exit_code, 0);
    assert!(t
        .lines
        .contains(&OutputLine::ListSpawnWarning(b"lost".to_vec())));
}

#[test]
fn test_rerun_reproduces_the_trace() {
    let args = real_args();
    let config = Config::new();
    let run = || {
        run_workflow(
            &args,
            &config,
            true,
            ok_result("updated"),
            ok_result("upgraded"),
            ok_result(""),
            ok_result("a 1\nb 2\n"),
        )
    };
    let first = run();
    let second = run();
    assert_eq!(first, second);
    assert_eq!(first.invocations, second.invocations);
    assert_eq!(first.exit_code, second.exit_code);
}
