//! The truncated package summary, on listings of many, few and no lines.

use brewup::cli::CliArgs;
use brewup::config::Config;
use brewup::outcome::SubprocessResult;
use brewup::workflow::{run_workflow, summary_lines, OutputLine};

fn listing_of(n: usize) -> String {
    let mut s = String::new();
    for i in 0..n {
        s.push_str(&format!("package{} 1.0.{}\n", i, i));
    }
    s
}

fn package_lines(lines: &[OutputLine]) -> Vec<Vec<u8>> {
    lines
        .iter()
        .filter_map(|l| match l {
            OutputLine::PackageLine(b) => Some(b.clone()),
            _ => None,
        })
        .collect()
}

fn marker_of(lines: &[OutputLine]) -> Option<usize> {
    lines.iter().find_map(|l| match l {
        OutputLine::MoreMarker(n) => Some(*n),
        _ => None,
    })
}

#[test]
fn test_twenty_five_packages_truncate_to_ten() {
    let stdout = listing_of(25).into_bytes();
    let lines = summary_lines(&stdout, 10);
    assert_eq!(lines[0], OutputLine::PackageCount(25));
    assert_eq!(lines[1], OutputLine::PackageListHeading);
    let pkgs = package_lines(&lines);
    assert_eq!(pkgs.len(), 10);
    assert_eq!(pkgs[0], b"package0 1.0.0".to_vec());
    assert_eq!(pkgs[9], b"package9 1.0.9".to_vec());
    assert_eq!(marker_of(&lines), Some(15));
    // The marker is the closing line: nothing follows it.
    assert_eq!(lines.last().unwrap(), &OutputLine::MoreMarker(15));
    assert_eq!(lines.len(), 13);
}

#[test]
fn test_five_packages_show_unmarked() {
    let stdout = listing_of(5).into_bytes();
    let lines = summary_lines(&stdout, 10);
    assert_eq!(lines[0], OutputLine::PackageCount(5));
    assert_eq!(package_lines(&lines).len(), 5);
    assert_eq!(marker_of(&lines), None);
}

#[test]
fn test_empty_listing_prints_count_only() {
    let stdout = Vec::new();
    let lines = summary_lines(&stdout, 10);
    assert_eq!(lines, vec![OutputLine::PackageCount(0)]);
}

#[test]
fn test_exactly_budget_packages_have_no_marker() {
    let stdout = listing_of(10).into_bytes();
    let lines = summary_lines(&stdout, 10);
    assert_eq!(lines[0], OutputLine::PackageCount(10));
    assert_eq!(package_lines(&lines).len(), 10);
    assert_eq!(marker_of(&lines), None);
}

#[test]
fn test_eleven_packages_omit_one() {
    let stdout = listing_of(11).into_bytes();
    let lines = summary_lines(&stdout, 10);
    assert_eq!(package_lines(&lines).len(), 10);
    assert_eq!(marker_of(&lines), Some(1));
}

#[test]
fn test_summary_through_whole_run() {
    let args = CliArgs {
        verbose: true,
        dry_run: false,
        skip_cleanup: false,
    };
    let config = Config::new();
    let t = run_workflow(
        &args,
        &config,
        true,
        Ok(SubprocessResult {
            success: true,
            stdout: Vec::new(),
            stderr: Vec::new(),
        }),
        Ok(SubprocessResult {
            success: true,
            stdout: Vec::new(),
            stderr: Vec::new(),
        }),
        Ok(SubprocessResult {
            success: true,
            stdout: Vec::new(),
            stderr: Vec::new(),
        }),
        Ok(SubprocessResult {
            success: true,
            stdout: listing_of(25).into_bytes(),
            stderr: Vec::new(),
        }),
    );
    assert_eq!(t.exit_code, 0);
    assert!(t.lines.contains(&OutputLine::PackageCount(25)));
    assert_eq!(package_lines(&t.lines).len(), 10);
    assert_eq!(marker_of(&t.lines), Some(15));
}
