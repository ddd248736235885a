//! The workflow state machine: the fixed order of steps, each step's
//! decision to run or skip, the severity policy applied to its outcome,
//! the bounded package summary, and the exit-code mapping.
//!
//! The machine is pure: it maps a state and an event (the probe answer or a
//! captured subprocess result) to the next state and the output owed to the
//! user.  An unverified shell performs the probe and the invocations that
//! [`spec_action`] asks for and feeds the results back in.

use vstd::prelude::*;

use crate::cli::CliArgs;
use crate::config::Config;
use crate::outcome::{
    spec_classify, Failure, FailureV, StepOutcome, StepOutcomeV, SubprocessResult,
};
use crate::text::{is_blank, spec_lines};

verus! {

/// One stage of the fixed workflow, in its fixed order.
#[derive(Clone, Copy, Debug, PartialEq, Eq, Structural)]
pub enum Step {
    /// Refresh the external tool's own metadata; failure is fatal.
    Update,
    /// Upgrade all managed packages; failure is fatal.
    Upgrade,
    /// Prune cached and old artifacts; best-effort, failure only warns.
    Cleanup,
    /// List installed packages for the truncated summary; failure only warns.
    Summary,
}

/// Where the run stands.
#[derive(Clone, Copy, Debug, PartialEq, Eq, Structural)]
pub enum State {
    /// Before anything ran: the availability of the tool must be probed.
    AtGate,
    /// About to execute the given step.
    AtStep(Step),
    /// The run is over; the process exits with the held code.
    Done(i32),
}

/// What the shell must do in a state before it can hand the machine the
/// matching event.
#[derive(Clone, Copy, Debug, PartialEq, Eq, Structural)]
pub enum Action {
    /// Probe whether the tool is invocable; answer with a boolean.
    Probe,
    /// Invoke the tool with the step's argument vector; answer with the
    /// captured result, or the spawn error.
    Invoke(Step),
    /// Nothing to run (dry run or skipped step); answer with `Proceed`.
    Proceed,
    /// Terminal: exit the process with the held code.
    Halt(i32),
}

/// What the shell observed: the answer matching the state's [`Action`].
pub enum Event {
    /// Whether the availability probe succeeded.
    ProbeResult(bool),
    /// The captured subprocess result, or the spawn error text.
    Invoked(Result<SubprocessResult, Vec<u8>>),
    /// Nothing was invoked.
    Proceed,
}

/// One line of output owed to the user, as plain content; decoration
/// (colour, emoji, wording) belongs to the shell.
#[derive(Debug, PartialEq, Eq)]
pub enum OutputLine {
    /// Application banner.
    Banner,
    /// Notice that a dry run makes no changes.
    DryRunNotice,
    /// Announcement that a step starts.
    StepAnnounce(Step),
    /// Echo of the exact command about to run.
    EchoCommand(Step),
    /// The exact command a dry run would have run.
    WouldRun(Step),
    /// Notice that the cleanup step is skipped.
    SkipCleanupNotice,
    /// Captured standard output of a successful invocation.
    ToolOutput(Vec<u8>),
    /// Short acknowledgment replacing blank output.
    DoneAck,
    /// The availability probe failed; the run aborts.
    GateFailure,
    /// A fatal step failure; the run aborts.
    FatalStepError(Step, Failure),
    /// The best-effort cleanup step failed; the run continues.
    CleanupWarning(Failure),
    /// How many packages are installed.
    PackageCount(usize),
    /// Heading of the package listing.
    PackageListHeading,
    /// One installed package, verbatim.
    PackageLine(Vec<u8>),
    /// How many further packages were omitted from the listing.
    MoreMarker(usize),
    /// The listing ran but returned a failure status.
    ListStatusWarning,
    /// The listing could not be spawned; shown only in verbose mode.
    ListSpawnWarning(Vec<u8>),
    /// Closing success banner.
    CompletionBanner,
}

/// Mathematical value of an [`OutputLine`].
#[verifier::ext_equal]
pub enum LineV {
    Banner,
    DryRunNotice,
    StepAnnounce(Step),
    EchoCommand(Step),
    WouldRun(Step),
    SkipCleanupNotice,
    ToolOutput(Seq<u8>),
    DoneAck,
    GateFailure,
    FatalStepError(Step, FailureV),
    CleanupWarning(FailureV),
    PackageCount(int),
    PackageListHeading,
    PackageLine(Seq<u8>),
    MoreMarker(int),
    ListStatusWarning,
    ListSpawnWarning(Seq<u8>),
    CompletionBanner,
}

impl View for OutputLine {
    type V = LineV;

    open spec fn view(&self) -> LineV {
        match self {
            OutputLine::Banner => LineV::Banner,
            OutputLine::DryRunNotice => LineV::DryRunNotice,
            OutputLine::StepAnnounce(s) => LineV::StepAnnounce(*s),
            OutputLine::EchoCommand(s) => LineV::EchoCommand(*s),
            OutputLine::WouldRun(s) => LineV::WouldRun(*s),
            OutputLine::SkipCleanupNotice => LineV::SkipCleanupNotice,
            OutputLine::ToolOutput(b) => LineV::ToolOutput(b@),
            OutputLine::DoneAck => LineV::DoneAck,
            OutputLine::GateFailure => LineV::GateFailure,
            OutputLine::FatalStepError(s, f) => LineV::FatalStepError(*s, f@),
            OutputLine::CleanupWarning(f) => LineV::CleanupWarning(f@),
            OutputLine::PackageCount(n) => LineV::PackageCount(*n as int),
            OutputLine::PackageListHeading => LineV::PackageListHeading,
            OutputLine::PackageLine(b) => LineV::PackageLine(b@),
            OutputLine::MoreMarker(n) => LineV::MoreMarker(*n as int),
            OutputLine::ListStatusWarning => LineV::ListStatusWarning,
            OutputLine::ListSpawnWarning(b) => LineV::ListSpawnWarning(b@),
            OutputLine::CompletionBanner => LineV::CompletionBanner,
        }
    }
}

/// The views of a sequence of output lines.
pub open spec fn views(s: Seq<OutputLine>) -> Seq<LineV> {
    s.map_values(|l: OutputLine| l@)
}

/// The lines printed before the availability probe: the banner, and in a
/// dry run the notice that no changes will be made.
pub open spec fn spec_header_lines(args: CliArgs) -> Seq<LineV> {
    if args.dry_run {
        seq![LineV::Banner, LineV::DryRunNotice]
    } else {
        seq![LineV::Banner]
    }
}

/// Whether a step's subprocess actually runs: never in a dry run, and never
/// for a skipped cleanup.
pub open spec fn spec_step_invokes(step: Step, args: CliArgs) -> bool {
    !args.dry_run && !(step == Step::Cleanup && args.skip_cleanup)
}

/// What the shell must do in each state.
pub open spec fn spec_action(state: State, args: CliArgs) -> Action {
    match state {
        State::AtGate => Action::Probe,
        State::AtStep(step) => if spec_step_invokes(step, args) {
            Action::Invoke(step)
        } else {
            Action::Proceed
        },
        State::Done(code) => Action::Halt(code),
    }
}

/// The lines owed on entering a state, before its action is performed: the
/// step announcement, the command echo or would-run preview, the cleanup
/// skip notice, and the closing banner of a successful run.
pub open spec fn spec_pre_lines(state: State, args: CliArgs) -> Seq<LineV> {
    match state {
        State::AtGate => Seq::empty(),
        State::AtStep(step) => if step == Step::Cleanup && args.skip_cleanup {
            seq![LineV::SkipCleanupNotice]
        } else if args.dry_run {
            seq![LineV::StepAnnounce(step), LineV::WouldRun(step)]
        } else if step == Step::Summary {
            seq![LineV::StepAnnounce(step)]
        } else if args.verbose {
            seq![LineV::StepAnnounce(step), LineV::EchoCommand(step)]
        } else {
            seq![LineV::StepAnnounce(step)]
        },
        State::Done(code) => if code == 0 {
            seq![LineV::CompletionBanner]
        } else {
            Seq::empty()
        },
    }
}

/// The state after a step that did not abort the run.
pub open spec fn spec_next_step(step: Step) -> State {
    match step {
        Step::Update => State::AtStep(Step::Upgrade),
        Step::Upgrade => State::AtStep(Step::Cleanup),
        Step::Cleanup => State::AtStep(Step::Summary),
        Step::Summary => State::Done(0),
    }
}

/// The per-step severity policy: a fatal classification of the best-effort
/// cleanup step is downgraded to a warning; update and upgrade failures
/// stay fatal.
pub open spec fn spec_apply_policy(step: Step, o: StepOutcomeV) -> StepOutcomeV {
    match o {
        StepOutcomeV::FailedFatal(f) => if step == Step::Cleanup {
            StepOutcomeV::SucceededWithWarning(f)
        } else {
            StepOutcomeV::FailedFatal(f)
        },
        _ => o,
    }
}

/// What a successful mutating invocation prints: its standard output, or a
/// short acknowledgment when that output is blank.
pub open spec fn spec_success_lines(stdout: Seq<u8>) -> Seq<LineV> {
    if is_blank(stdout) {
        seq![LineV::DoneAck]
    } else {
        seq![LineV::ToolOutput(stdout)]
    }
}

/// The truncated package summary for a captured listing: always the package
/// count; when any package is installed, a heading, up to `budget` package
/// lines verbatim, and — only when the count exceeds the budget — a single
/// marker naming how many entries were omitted.
pub open spec fn spec_summary_lines(stdout: Seq<u8>, budget: int) -> Seq<LineV> {
    let ls = spec_lines(stdout);
    let n = ls.len() as int;
    let shown = if n <= budget {
        n
    } else {
        budget
    };
    seq![LineV::PackageCount(n)] + if n == 0 {
        Seq::empty()
    } else {
        seq![LineV::PackageListHeading] + ls.take(shown).map_values(
            |l: Seq<u8>| LineV::PackageLine(l),
        ) + if n > budget {
            seq![LineV::MoreMarker(n - budget)]
        } else {
            Seq::empty()
        }
    }
}

/// What the summary step prints for a listing result: the truncated summary
/// on success; a generic warning when the listing returned a failure
/// status; and, only in verbose mode, a warning when it could not be
/// spawned at all.
pub open spec fn spec_list_lines(
    args: CliArgs,
    config: Config,
    res: Result<SubprocessResult, Vec<u8>>,
) -> Seq<LineV> {
    match res {
        Result::Err(e) => if args.verbose {
            seq![LineV::ListSpawnWarning(e@)]
        } else {
            Seq::empty()
        },
        Result::Ok(r) => if r.success {
            spec_summary_lines(r.stdout@, config.max_packages_display as int)
        } else {
            seq![LineV::ListStatusWarning]
        },
    }
}

/// Next state and lines after a mutating step's invocation came back, under
/// the step's severity policy.
pub open spec fn spec_mutating_result(
    step: Step,
    res: Result<SubprocessResult, Vec<u8>>,
) -> (State, Seq<LineV>) {
    match spec_apply_policy(step, spec_classify(res)) {
        StepOutcomeV::Succeeded => (
            spec_next_step(step),
            spec_success_lines(
                match res {
                    Result::Ok(r) => r.stdout@,
                    Result::Err(_) => Seq::empty(),
                },
            ),
        ),
        StepOutcomeV::SucceededWithWarning(f) => (
            spec_next_step(step),
            seq![LineV::CleanupWarning(f)],
        ),
        StepOutcomeV::FailedFatal(f) => (State::Done(1), seq![LineV::FatalStepError(step, f)]),
    }
}

/// The transition relation of the machine: the next state and the lines
/// owed after the event.  An event of the wrong kind for the state changes
/// nothing.
pub open spec fn spec_transition(
    state: State,
    args: CliArgs,
    config: Config,
    event: Event,
) -> (State, Seq<LineV>) {
    match state {
        State::AtGate => match event {
            Event::ProbeResult(available) => if available {
                (State::AtStep(Step::Update), Seq::empty())
            } else {
                (State::Done(1), seq![LineV::GateFailure])
            },
            _ => (state, Seq::empty()),
        },
        State::AtStep(step) => match event {
            Event::Proceed => (spec_next_step(step), Seq::empty()),
            Event::Invoked(res) => if step == Step::Summary {
                (State::Done(0), spec_list_lines(args, config, res))
            } else {
                spec_mutating_result(step, res)
            },
            _ => (state, Seq::empty()),
        },
        State::Done(_) => (state, Seq::empty()),
    }
}

pub broadcast proof fn lemma_views_add(a: Seq<OutputLine>, b: Seq<OutputLine>)
    ensures
        #[trigger] views(a + b) == views(a) + views(b),
{
    assert(views(a + b) =~= views(a) + views(b));
}

/// The lines printed before the availability probe.
pub fn header_lines(args: &CliArgs) -> (r: Vec<OutputLine>)
    ensures
        views(r@) == spec_header_lines(*args),
{
    if args.dry_run {
        let r = vec![OutputLine::Banner, OutputLine::DryRunNotice];
        proof {
            assert(views(r@) =~= seq![LineV::Banner, LineV::DryRunNotice]);
        }
        r
    } else {
        let r = vec![OutputLine::Banner];
        proof {
            assert(views(r@) =~= seq![LineV::Banner]);
        }
        r
    }
}

/// What the shell must do in the given state.
pub fn state_action(state: &State, args: &CliArgs) -> (a: Action)
    ensures
        a == spec_action(*state, *args),
{
    match state {
        State::AtGate => Action::Probe,
        State::AtStep(step) => {
            if args.dry_run || (*step == Step::Cleanup && args.skip_cleanup) {
                Action::Proceed
            } else {
                Action::Invoke(*step)
            }
        },
        State::Done(code) => Action::Halt(*code),
    }
}

/// The lines owed on entering the given state, before its action runs.
pub fn pre_lines(state: &State, args: &CliArgs) -> (r: Vec<OutputLine>)
    ensures
        views(r@) == spec_pre_lines(*state, *args),
{
    match state {
        State::AtGate => Vec::new(),
        State::AtStep(step) => {
            let s = *step;
            if s == Step::Cleanup && args.skip_cleanup {
                let r = vec![OutputLine::SkipCleanupNotice];
                proof {
                    assert(views(r@) =~= seq![LineV::SkipCleanupNotice]);
                }
                r
            } else if args.dry_run {
                let r = vec![OutputLine::StepAnnounce(s), OutputLine::WouldRun(s)];
                proof {
                    assert(views(r@) =~= seq![LineV::StepAnnounce(s), LineV::WouldRun(s)]);
                }
                r
            } else if s == Step::Summary {
                let r = vec![OutputLine::StepAnnounce(s)];
                proof {
                    assert(views(r@) =~= seq![LineV::StepAnnounce(s)]);
                }
                r
            } else if args.verbose {
                let r = vec![OutputLine::StepAnnounce(s), OutputLine::EchoCommand(s)];
                proof {
                    assert(views(r@) =~= seq![LineV::StepAnnounce(s), LineV::EchoCommand(s)]);
                }
                r
            } else {
                let r = vec![OutputLine::StepAnnounce(s)];
                proof {
                    assert(views(r@) =~= seq![LineV::StepAnnounce(s)]);
                }
                r
            }
        },
        State::Done(code) => {
            if *code == 0 {
                let r = vec![OutputLine::CompletionBanner];
                proof {
                    assert(views(r@) =~= seq![LineV::CompletionBanner]);
                }
                r
            } else {
                Vec::new()
            }
        },
    }
}

/// The state following a step that did not abort the run.
pub fn next_step(step: &Step) -> (s: State)
    ensures
        s == spec_next_step(*step),
{
    match step {
        Step::Update => State::AtStep(Step::Upgrade),
        Step::Upgrade => State::AtStep(Step::Cleanup),
        Step::Cleanup => State::AtStep(Step::Summary),
        Step::Summary => State::Done(0),
    }
}

/// Applies the per-step severity policy to a classified outcome.
pub fn apply_step_policy(step: &Step, o: StepOutcome) -> (r: StepOutcome)
    ensures
        r@ == spec_apply_policy(*step, o@),
{
    match o {
        StepOutcome::FailedFatal(f) => {
            if *step == Step::Cleanup {
                StepOutcome::SucceededWithWarning(f)
            } else {
                StepOutcome::FailedFatal(f)
            }
        },
        other => other,
    }
}

/// The truncated package summary for a successfully captured listing.
pub fn summary_lines(stdout: &Vec<u8>, budget: usize) -> (r: Vec<OutputLine>)
    ensures
        views(r@) == spec_summary_lines(stdout@, budget as int),
{
    let ghost f = |l: Vec<u8>| l@;
    let mut listing = crate::text::split_lines(stdout);
    let ghost ls = spec_lines(stdout@);
    proof {
        assert(listing@.map_values(f) == ls);
    }
    let n = listing.len();
    let mut r: Vec<OutputLine> = Vec::new();
    r.push(OutputLine::PackageCount(n));
    proof {
        assert(views(r@) =~= seq![LineV::PackageCount(n as int)]);
    }
    if n > 0 {
        r.push(OutputLine::PackageListHeading);
        proof {
            assert(views(r@) =~= seq![
                LineV::PackageCount(n as int),
                LineV::PackageListHeading,
            ]);
        }
        let shown: usize = if n <= budget {
            n
        } else {
            budget
        };
        proof {
            assert(ls.take(0).map_values(|l: Seq<u8>| LineV::PackageLine(l)) =~= Seq::<
                LineV,
            >::empty());
        }
        let mut i: usize = 0;
        while i < shown
            invariant
                i <= shown <= n == ls.len(),
                listing@.len() + i == ls.len(),
                f == (|l: Vec<u8>| l@),
                listing@.map_values(f) == ls.skip(i as int),
                views(r@) == seq![LineV::PackageCount(n as int), LineV::PackageListHeading] + ls.take(
                    i as int,
                ).map_values(|l: Seq<u8>| LineV::PackageLine(l)),
            decreases shown - i,
        {
            let ghost old_r = r@;
            let ghost old_listing = listing@;
            let line = listing.remove(0);
            proof {
                assert(old_listing.map_values(f)[0] == old_listing[0]@);
                assert(line@ == ls.skip(i as int)[0]);
                assert(ls.skip(i as int)[0] == ls[i as int]);
                assert(listing@ =~= old_listing.subrange(1, old_listing.len() as int));
                assert forall|j: int| 0 <= j < listing@.len() implies #[trigger] listing@.map_values(
                    f,
                )[j] == ls.skip(i + 1)[j] by {
                    assert(listing@[j] == old_listing[j + 1]);
                    assert(old_listing.map_values(f)[j + 1] == old_listing[j + 1]@);
                    assert(old_listing.map_values(f)[j + 1] == ls.skip(i as int)[j + 1]);
                }
                assert(listing@.map_values(f) =~= ls.skip(i + 1));
            }
            r.push(OutputLine::PackageLine(line));
            proof {
                assert(views(r@) =~= views(old_r).push(LineV::PackageLine(ls[i as int])));
                assert(ls.take(i + 1).map_values(|l: Seq<u8>| LineV::PackageLine(l)) =~= ls.take(
                    i as int,
                ).map_values(|l: Seq<u8>| LineV::PackageLine(l)).push(
                    LineV::PackageLine(ls[i as int]),
                ));
                assert(views(r@) =~= seq![
                    LineV::PackageCount(n as int),
                    LineV::PackageListHeading,
                ] + ls.take(i + 1).map_values(|l: Seq<u8>| LineV::PackageLine(l)));
            }
            i += 1;
        }
        if n > budget {
            let ghost before_marker = r@;
            r.push(OutputLine::MoreMarker(n - budget));
            proof {
                assert(views(r@) =~= views(before_marker).push(
                    LineV::MoreMarker(n as int - budget as int),
                ));
                assert(views(r@) =~= spec_summary_lines(stdout@, budget as int));
            }
        } else {
            proof {
                assert(views(r@) =~= spec_summary_lines(stdout@, budget as int));
            }
        }
    } else {
        proof {
            assert(views(r@) =~= spec_summary_lines(stdout@, budget as int));
        }
    }
    r
}

/// What the summary step prints for a listing result.
fn list_result(args: &CliArgs, config: &Config, res: Result<SubprocessResult, Vec<u8>>) -> (r:
    Vec<OutputLine>)
    ensures
        views(r@) == spec_list_lines(*args, *config, res),
{
    match res {
        Result::Err(e) => {
            if args.verbose {
                let r = vec![OutputLine::ListSpawnWarning(e)];
                proof {
                    assert(views(r@) =~= spec_list_lines(*args, *config, Result::Err(e)));
                }
                r
            } else {
                Vec::new()
            }
        },
        Result::Ok(sp) => {
            if sp.success {
                summary_lines(&sp.stdout, config.max_packages_display)
            } else {
                let r = vec![OutputLine::ListStatusWarning];
                proof {
                    assert(views(r@) =~= seq![LineV::ListStatusWarning]);
                }
                r
            }
        },
    }
}

/// Next state and lines after a mutating step's invocation came back.
fn mutating_result(step: Step, res: Result<SubprocessResult, Vec<u8>>) -> (r: (
    State,
    Vec<OutputLine>,
))
    requires
        step != Step::Summary,
    ensures
        r.0 == spec_mutating_result(step, res).0,
        views(r.1@) == spec_mutating_result(step, res).1,
{
    match res {
        Result::Err(e) => fatal_or_warn(step, Failure::Spawn(e)),
        Result::Ok(sp) => {
            if sp.success {
                let next = next_step(&step);
                if crate::outcome::shows_done_ack(&sp.stdout) {
                    let r = vec![OutputLine::DoneAck];
                    proof {
                        assert(views(r@) =~= seq![LineV::DoneAck]);
                    }
                    (next, r)
                } else {
                    let ghost out = sp.stdout@;
                    let r = vec![OutputLine::ToolOutput(sp.stdout)];
                    proof {
                        assert(views(r@) =~= seq![LineV::ToolOutput(out)]);
                    }
                    (next, r)
                }
            } else {
                let f = Failure::Status(crate::text::trim_bytes(&sp.stderr));
                fatal_or_warn(step, f)
            }
        },
    }
}

/// A failed invocation under the step's severity policy: a cleanup failure
/// warns and continues; any other failure aborts the run.
fn fatal_or_warn(step: Step, f: Failure) -> (r: (State, Vec<OutputLine>))
    ensures
        step == Step::Cleanup ==> r.0 == State::AtStep(Step::Summary) && views(r.1@) =~= seq![
            LineV::CleanupWarning(f@),
        ],
        step != Step::Cleanup ==> r.0 == State::Done(1) && views(r.1@) =~= seq![
            LineV::FatalStepError(step, f@),
        ],
{
    if step == Step::Cleanup {
        let ghost fv = f@;
        let r = vec![OutputLine::CleanupWarning(f)];
        proof {
            assert(views(r@) =~= seq![LineV::CleanupWarning(fv)]);
        }
        (State::AtStep(Step::Summary), r)
    } else {
        let ghost fv = f@;
        let r = vec![OutputLine::FatalStepError(step, f)];
        proof {
            assert(views(r@) =~= seq![LineV::FatalStepError(step, fv)]);
        }
        (State::Done(1), r)
    }
}

/// One transition of the machine: the next state and the lines owed after
/// the event.
pub fn transition(state: &State, args: &CliArgs, config: &Config, event: Event) -> (r: (
    State,
    Vec<OutputLine>,
))
    ensures
        r.0 == spec_transition(*state, *args, *config, event).0,
        views(r.1@) == spec_transition(*state, *args, *config, event).1,
{
    match state {
        State::AtGate => match event {
            Event::ProbeResult(available) => {
                if available {
                    (State::AtStep(Step::Update), Vec::new())
                } else {
                    let r = vec![OutputLine::GateFailure];
                    proof {
                        assert(views(r@) =~= seq![LineV::GateFailure]);
                    }
                    (State::Done(1), r)
                }
            },
            _ => (*state, Vec::new()),
        },
        State::AtStep(step) => match event {
            Event::Proceed => (next_step(step), Vec::new()),
            Event::Invoked(res) => {
                if *step == Step::Summary {
                    (State::Done(0), list_result(args, config, res))
                } else {
                    mutating_result(*step, res)
                }
            },
            _ => (*state, Vec::new()),
        },
        State::Done(_) => (*state, Vec::new()),
    }
}

/// The argument vector the given step hands to the external tool.
pub fn step_argv(step: &Step, config: &Config) -> (r: Vec<&'static str>)
    ensures
        *step == Step::Update ==> r@.len() == 1 && r@[0]@ == "update"@,
        *step == Step::Upgrade ==> r@.len() == 1 && r@[0]@ == "upgrade"@,
        *step == Step::Cleanup ==> r@ == config.cleanup_args@,
        *step == Step::Summary ==> r@.len() == 2 && r@[0]@ == "list"@ && r@[1]@ == "--versions"@,
{
    match step {
        Step::Update => vec!["update"],
        Step::Upgrade => vec!["upgrade"],
        Step::Cleanup => {
            let mut r: Vec<&'static str> = Vec::new();
            let mut i: usize = 0;
            while i < config.cleanup_args.len()
                invariant
                    i <= config.cleanup_args@.len(),
                    r@ == config.cleanup_args@.take(i as int),
                decreases config.cleanup_args@.len() - i,
            {
                r.push(config.cleanup_args[i]);
                proof {
                    assert(config.cleanup_args@.take(i + 1) =~= config.cleanup_args@.take(
                        i as int,
                    ).push(config.cleanup_args@[i as int]));
                }
                i += 1;
            }
            proof {
                assert(config.cleanup_args@.take(config.cleanup_args@.len() as int)
                    =~= config.cleanup_args@);
            }
            r
        },
        Step::Summary => vec!["list", "--versions"],
    }
}

/// Full trace of one run: every line owed to the user, every tool
/// invocation that was made, in order, and the exit code.
#[derive(Debug, PartialEq, Eq)]
pub struct RunTrace {
    /// The output lines, in order.
    pub lines: Vec<OutputLine>,
    /// The steps whose subprocess was actually invoked, in order.
    pub invocations: Vec<Step>,
    /// The process exit code of the run.
    pub exit_code: i32,
}

/// Mathematical value of a [`RunTrace`].
#[verifier::ext_equal]
pub struct TraceV {
    /// The output lines, in order.
    pub lines: Seq<LineV>,
    /// The steps whose subprocess was invoked, in order.
    pub invocations: Seq<Step>,
    /// The process exit code.
    pub exit_code: int,
}

impl View for RunTrace {
    type V = TraceV;

    open spec fn view(&self) -> TraceV {
        TraceV {
            lines: views(self.lines@),
            invocations: self.invocations@,
            exit_code: self.exit_code as int,
        }
    }
}

/// One stage of a run: the lines owed on entering the state, the event the
/// state's action yields (the given result where the step invokes, a bare
/// proceed otherwise), and the transition on it.  Returns the next state,
/// the lines of the stage, and the invocations it made.
pub open spec fn spec_stage(
    state: State,
    args: CliArgs,
    config: Config,
    res: Result<SubprocessResult, Vec<u8>>,
) -> (State, Seq<LineV>, Seq<Step>) {
    let pre = spec_pre_lines(state, args);
    match spec_action(state, args) {
        Action::Invoke(step) => {
            let t = spec_transition(state, args, config, Event::Invoked(res));
            (t.0, pre + t.1, seq![step])
        },
        Action::Proceed => {
            let t = spec_transition(state, args, config, Event::Proceed);
            (t.0, pre + t.1, Seq::empty())
        },
        _ => (state, pre, Seq::empty()),
    }
}

/// A whole run of the workflow, as a function of the run configuration, the
/// probe answer, and what the tool would return for each step that invokes
/// it.  This is the reference the executable runner and every stated
/// property are held to.
pub open spec fn spec_run(
    args: CliArgs,
    config: Config,
    tool_available: bool,
    update_res: Result<SubprocessResult, Vec<u8>>,
    upgrade_res: Result<SubprocessResult, Vec<u8>>,
    cleanup_res: Result<SubprocessResult, Vec<u8>>,
    list_res: Result<SubprocessResult, Vec<u8>>,
) -> TraceV {
    let header = spec_header_lines(args);
    let gate = spec_transition(State::AtGate, args, config, Event::ProbeResult(tool_available));
    match gate.0 {
        State::AtStep(_) => {
            let su = spec_stage(gate.0, args, config, update_res);
            match su.0 {
                State::Done(c) => TraceV {
                    lines: header + gate.1 + su.1 + spec_pre_lines(su.0, args),
                    invocations: su.2,
                    exit_code: c as int,
                },
                _ => {
                    let sg = spec_stage(su.0, args, config, upgrade_res);
                    match sg.0 {
                        State::Done(c) => TraceV {
                            lines: header + gate.1 + su.1 + sg.1 + spec_pre_lines(sg.0, args),
                            invocations: su.2 + sg.2,
                            exit_code: c as int,
                        },
                        _ => {
                            let sc = spec_stage(sg.0, args, config, cleanup_res);
                            match sc.0 {
                                State::Done(c) => TraceV {
                                    lines: header + gate.1 + su.1 + sg.1 + sc.1 + spec_pre_lines(
                                        sc.0,
                                        args,
                                    ),
                                    invocations: su.2 + sg.2 + sc.2,
                                    exit_code: c as int,
                                },
                                _ => {
                                    let sl = spec_stage(sc.0, args, config, list_res);
                                    let code: int = match sl.0 {
                                        State::Done(c) => c as int,
                                        _ => 0,
                                    };
                                    TraceV {
                                        lines: header + gate.1 + su.1 + sg.1 + sc.1 + sl.1
                                            + spec_pre_lines(sl.0, args),
                                        invocations: su.2 + sg.2 + sc.2 + sl.2,
                                        exit_code: code,
                                    }
                                },
                            }
                        },
                    }
                },
            }
        },
        _ => TraceV {
            lines: header + gate.1 + spec_pre_lines(gate.0, args),
            invocations: Seq::empty(),
            exit_code: 1,
        },
    }
}

/// Runs one stage: performs the state's pre-lines and its transition on the
/// supplied result.
fn run_stage(
    state: State,
    args: &CliArgs,
    config: &Config,
    res: Result<SubprocessResult, Vec<u8>>,
) -> (r: (State, Vec<OutputLine>, Vec<Step>))
    ensures
        r.0 == spec_stage(state, *args, *config, res).0,
        views(r.1@) == spec_stage(state, *args, *config, res).1,
        r.2@ == spec_stage(state, *args, *config, res).2,
{
    broadcast use lemma_views_add;

    let a = state_action(&state, args);
    let mut lines = pre_lines(&state, args);
    match a {
        Action::Invoke(step) => {
            let (s2, mut post) = transition(&state, args, config, Event::Invoked(res));
            lines.append(&mut post);
            let mut inv: Vec<Step> = Vec::new();
            inv.push(step);
            proof {
                assert(inv@ =~= seq![step]);
            }
            (s2, lines, inv)
        },
        Action::Proceed => {
            let (s2, mut post) = transition(&state, args, config, Event::Proceed);
            lines.append(&mut post);
            (s2, lines, Vec::new())
        },
        _ => (state, lines, Vec::new()),
    }
}

/// Runs the whole workflow on a given probe answer and per-step results:
/// the simulated form of the pipeline, and the executable face of
/// [`spec_run`].  The unverified shell instead drives [`state_action`] and
/// [`transition`] step by step, feeding in live results.
pub fn run_workflow(
    args: &CliArgs,
    config: &Config,
    tool_available: bool,
    update_res: Result<SubprocessResult, Vec<u8>>,
    upgrade_res: Result<SubprocessResult, Vec<u8>>,
    cleanup_res: Result<SubprocessResult, Vec<u8>>,
    list_res: Result<SubprocessResult, Vec<u8>>,
) -> (t: RunTrace)
    ensures
        t@ == spec_run(
            *args,
            *config,
            tool_available,
            update_res,
            upgrade_res,
            cleanup_res,
            list_res,
        ),
{
    broadcast use lemma_views_add;

    let ghost spec_t = spec_run(
        *args,
        *config,
        tool_available,
        update_res,
        upgrade_res,
        cleanup_res,
        list_res,
    );
    let mut lines = header_lines(args);
    let (s1, mut gate_lines) = transition(
        &State::AtGate,
        args,
        config,
        Event::ProbeResult(tool_available),
    );
    lines.append(&mut gate_lines);
    let at_step = match s1 {
        State::AtStep(_) => true,
        _ => false,
    };
    if !at_step {
        let mut end = pre_lines(&s1, args);
        lines.append(&mut end);
        let t = RunTrace { lines, invocations: Vec::new(), exit_code: 1 };
        proof {
            assert(t@ =~= spec_t);
        }
        return t;
    }
    let mut invocations: Vec<Step> = Vec::new();
    let (s2, mut l2, mut i2) = run_stage(s1, args, config, update_res);
    lines.append(&mut l2);
    invocations.append(&mut i2);
    if let State::Done(c) = s2 {
        let mut end = pre_lines(&s2, args);
        lines.append(&mut end);
        let t = RunTrace { lines, invocations, exit_code: c };
        proof {
            assert(t@ =~= spec_t);
        }
        return t;
    }
    let (s3, mut l3, mut i3) = run_stage(s2, args, config, upgrade_res);
    lines.append(&mut l3);
    invocations.append(&mut i3);
    if let State::Done(c) = s3 {
        let mut end = pre_lines(&s3, args);
        lines.append(&mut end);
        let t = RunTrace { lines, invocations, exit_code: c };
        proof {
            assert(t@ =~= spec_t);
        }
        return t;
    }
    let (s4, mut l4, mut i4) = run_stage(s3, args, config, cleanup_res);
    lines.append(&mut l4);
    invocations.append(&mut i4);
    if let State::Done(c) = s4 {
        let mut end = pre_lines(&s4, args);
        lines.append(&mut end);
        let t = RunTrace { lines, invocations, exit_code: c };
        proof {
            assert(t@ =~= spec_t);
        }
        return t;
    }
    let (s5, mut l5, mut i5) = run_stage(s4, args, config, list_res);
    lines.append(&mut l5);
    invocations.append(&mut i5);
    let code: i32 = match s5 {
        State::Done(c) => c,
        _ => 0,
    };
    let mut end = pre_lines(&s5, args);
    lines.append(&mut end);
    let t = RunTrace { lines, invocations, exit_code: code };
    proof {
        assert(t@ =~= spec_t);
    }
    t
}

} // verus!
