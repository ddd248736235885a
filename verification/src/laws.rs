//! The stated laws of the workflow, proved of [`spec_run`]: what a dry run
//! does, how each failure aborts or degrades the run, when the cleanup skip
//! notice appears, and that a run is a function of its inputs alone.

use vstd::prelude::*;

use crate::cli::CliArgs;
use crate::config::Config;
use crate::outcome::{spec_failure_of, spec_result_fatal, spec_stdout_of, SubprocessResult};
use crate::workflow::{
    spec_header_lines, spec_list_lines, spec_pre_lines, spec_run, spec_success_lines, LineV, State,
    Step, TraceV,
};

verus! {

/// Every line of a dry run whose availability probe succeeded: each step
/// announces itself and previews the command it would run (the skip notice
/// replacing the cleanup preview when cleanup is skipped), and the run
/// closes with the success banner.
pub open spec fn spec_dry_run_lines(args: CliArgs) -> Seq<LineV> {
    let cleanup_part = if args.skip_cleanup {
        seq![LineV::SkipCleanupNotice]
    } else {
        seq![LineV::StepAnnounce(Step::Cleanup), LineV::WouldRun(Step::Cleanup)]
    };
    spec_header_lines(args) + seq![
        LineV::StepAnnounce(Step::Update),
        LineV::WouldRun(Step::Update),
    ] + seq![LineV::StepAnnounce(Step::Upgrade), LineV::WouldRun(Step::Upgrade)] + cleanup_part
        + seq![LineV::StepAnnounce(Step::Summary), LineV::WouldRun(Step::Summary)] + seq![
        LineV::CompletionBanner,
    ]
}

/// In a dry run whose availability gate passes, no subprocess is ever
/// invoked, every step prints its would-run preview instead, and the run
/// exits 0.
pub proof fn lemma_dry_run_previews_only(
    args: CliArgs,
    config: Config,
    tool_available: bool,
    update_res: Result<SubprocessResult, Vec<u8>>,
    upgrade_res: Result<SubprocessResult, Vec<u8>>,
    cleanup_res: Result<SubprocessResult, Vec<u8>>,
    list_res: Result<SubprocessResult, Vec<u8>>,
)
    requires
        args.dry_run,
        tool_available,
    ensures
        spec_run(
            args,
            config,
            tool_available,
            update_res,
            upgrade_res,
            cleanup_res,
            list_res,
        ).invocations == Seq::<Step>::empty(),
        spec_run(
            args,
            config,
            tool_available,
            update_res,
            upgrade_res,
            cleanup_res,
            list_res,
        ).exit_code == 0,
        spec_run(
            args,
            config,
            tool_available,
            update_res,
            upgrade_res,
            cleanup_res,
            list_res,
        ).lines == spec_dry_run_lines(args),
{
    let t = spec_run(args, config, tool_available, update_res, upgrade_res, cleanup_res, list_res);
    assert(t.invocations =~= Seq::<Step>::empty());
    assert(t.lines =~= spec_dry_run_lines(args));
}

/// When the availability probe fails, the run exits 1 after the single
/// gate-failure line, and no update, upgrade, cleanup or listing
/// invocation occurs.
pub proof fn lemma_unavailable_aborts(
    args: CliArgs,
    config: Config,
    tool_available: bool,
    update_res: Result<SubprocessResult, Vec<u8>>,
    upgrade_res: Result<SubprocessResult, Vec<u8>>,
    cleanup_res: Result<SubprocessResult, Vec<u8>>,
    list_res: Result<SubprocessResult, Vec<u8>>,
)
    requires
        !tool_available,
    ensures
        spec_run(
            args,
            config,
            tool_available,
            update_res,
            upgrade_res,
            cleanup_res,
            list_res,
        ).invocations == Seq::<Step>::empty(),
        spec_run(
            args,
            config,
            tool_available,
            update_res,
            upgrade_res,
            cleanup_res,
            list_res,
        ).exit_code == 1,
        spec_run(
            args,
            config,
            tool_available,
            update_res,
            upgrade_res,
            cleanup_res,
            list_res,
        ).lines == spec_header_lines(args) + seq![LineV::GateFailure],
{
    let t = spec_run(args, config, tool_available, update_res, upgrade_res, cleanup_res, list_res);
    assert(t.invocations =~= Seq::<Step>::empty());
    assert(t.lines =~= spec_header_lines(args) + seq![LineV::GateFailure]);
}

/// When the update step fails in a real run, the run exits 1 after
/// reporting the failure, and upgrade, cleanup and summary never execute:
/// the update invocation is the only one made.
pub proof fn lemma_update_failure_aborts(
    args: CliArgs,
    config: Config,
    tool_available: bool,
    update_res: Result<SubprocessResult, Vec<u8>>,
    upgrade_res: Result<SubprocessResult, Vec<u8>>,
    cleanup_res: Result<SubprocessResult, Vec<u8>>,
    list_res: Result<SubprocessResult, Vec<u8>>,
)
    requires
        tool_available,
        !args.dry_run,
        spec_result_fatal(update_res),
    ensures
        spec_run(
            args,
            config,
            tool_available,
            update_res,
            upgrade_res,
            cleanup_res,
            list_res,
        ).invocations == seq![Step::Update],
        spec_run(
            args,
            config,
            tool_available,
            update_res,
            upgrade_res,
            cleanup_res,
            list_res,
        ).exit_code == 1,
        spec_run(
            args,
            config,
            tool_available,
            update_res,
            upgrade_res,
            cleanup_res,
            list_res,
        ).lines == spec_header_lines(args) + spec_pre_lines(State::AtStep(Step::Update), args)
            + seq![LineV::FatalStepError(Step::Update, spec_failure_of(update_res))],
{
    let t = spec_run(args, config, tool_available, update_res, upgrade_res, cleanup_res, list_res);
    assert(t.invocations =~= seq![Step::Update]);
    assert(t.lines =~= spec_header_lines(args) + spec_pre_lines(State::AtStep(Step::Update), args)
        + seq![LineV::FatalStepError(Step::Update, spec_failure_of(update_res))]);
}

/// When cleanup fails in a real run whose update and upgrade succeeded,
/// the failure only warns: the warning line is printed, the summary step
/// still executes, and the run exits 0.
pub proof fn lemma_cleanup_failure_survives(
    args: CliArgs,
    config: Config,
    tool_available: bool,
    update_res: Result<SubprocessResult, Vec<u8>>,
    upgrade_res: Result<SubprocessResult, Vec<u8>>,
    cleanup_res: Result<SubprocessResult, Vec<u8>>,
    list_res: Result<SubprocessResult, Vec<u8>>,
)
    requires
        tool_available,
        !args.dry_run,
        !args.skip_cleanup,
        !spec_result_fatal(update_res),
        !spec_result_fatal(upgrade_res),
        spec_result_fatal(cleanup_res),
    ensures
        spec_run(
            args,
            config,
            tool_available,
            update_res,
            upgrade_res,
            cleanup_res,
            list_res,
        ).invocations == seq![Step::Update, Step::Upgrade, Step::Cleanup, Step::Summary],
        spec_run(
            args,
            config,
            tool_available,
            update_res,
            upgrade_res,
            cleanup_res,
            list_res,
        ).exit_code == 0,
        spec_run(
            args,
            config,
            tool_available,
            update_res,
            upgrade_res,
            cleanup_res,
            list_res,
        ).lines == spec_header_lines(args) + spec_pre_lines(State::AtStep(Step::Update), args)
            + spec_success_lines(spec_stdout_of(update_res)) + spec_pre_lines(
            State::AtStep(Step::Upgrade),
            args,
        ) + spec_success_lines(spec_stdout_of(upgrade_res)) + spec_pre_lines(
            State::AtStep(Step::Cleanup),
            args,
        ) + seq![LineV::CleanupWarning(spec_failure_of(cleanup_res))] + spec_pre_lines(
            State::AtStep(Step::Summary),
            args,
        ) + spec_list_lines(args, config, list_res) + seq![LineV::CompletionBanner],
        spec_run(
            args,
            config,
            tool_available,
            update_res,
            upgrade_res,
            cleanup_res,
            list_res,
        ).lines.contains(LineV::CleanupWarning(spec_failure_of(cleanup_res))),
{
    let t = spec_run(args, config, tool_available, update_res, upgrade_res, cleanup_res, list_res);
    let full = spec_header_lines(args) + spec_pre_lines(State::AtStep(Step::Update), args)
        + spec_success_lines(spec_stdout_of(update_res)) + spec_pre_lines(
        State::AtStep(Step::Upgrade),
        args,
    ) + spec_success_lines(spec_stdout_of(upgrade_res)) + spec_pre_lines(
        State::AtStep(Step::Cleanup),
        args,
    ) + seq![LineV::CleanupWarning(spec_failure_of(cleanup_res))] + spec_pre_lines(
        State::AtStep(Step::Summary),
        args,
    ) + spec_list_lines(args, config, list_res) + seq![LineV::CompletionBanner];
    assert(t.invocations =~= seq![Step::Update, Step::Upgrade, Step::Cleanup, Step::Summary]);
    assert(t.lines =~= full);
    let warn_at = spec_header_lines(args).len() + spec_pre_lines(
        State::AtStep(Step::Update),
        args,
    ).len() + spec_success_lines(spec_stdout_of(update_res)).len() + spec_pre_lines(
        State::AtStep(Step::Upgrade),
        args,
    ).len() + spec_success_lines(spec_stdout_of(upgrade_res)).len() + spec_pre_lines(
        State::AtStep(Step::Cleanup),
        args,
    ).len();
    assert(t.lines[warn_at as int] == LineV::CleanupWarning(spec_failure_of(cleanup_res)));
    assert(t.lines.contains(LineV::CleanupWarning(spec_failure_of(cleanup_res))));
}

/// How many cleanup skip notices a sequence of lines holds.
pub open spec fn count_skip_notices(s: Seq<LineV>) -> nat
    decreases s.len(),
{
    if s.len() == 0 {
        0
    } else {
        count_skip_notices(s.drop_first()) + (if s.first() is SkipCleanupNotice {
            1nat
        } else {
            0nat
        })
    }
}

proof fn lemma_count_add(a: Seq<LineV>, b: Seq<LineV>)
    ensures
        count_skip_notices(a + b) == count_skip_notices(a) + count_skip_notices(b),
    decreases a.len(),
{
    if a.len() == 0 {
        assert(a + b =~= b);
    } else {
        assert((a + b).drop_first() =~= a.drop_first() + b);
        assert((a + b).first() == a.first());
        lemma_count_add(a.drop_first(), b);
    }
}

proof fn lemma_count_none(s: Seq<LineV>)
    requires
        forall|i: int| 0 <= i < s.len() ==> !(#[trigger] s[i] is SkipCleanupNotice),
    ensures
        count_skip_notices(s) == 0,
    decreases s.len(),
{
    if s.len() > 0 {
        assert(forall|i: int|
            0 <= i < s.drop_first().len() ==> #[trigger] s.drop_first()[i] == s[i + 1]);
        lemma_count_none(s.drop_first());
    }
}

proof fn lemma_count_single_skip()
    ensures
        count_skip_notices(seq![LineV::SkipCleanupNotice]) == 1,
{
    let s = seq![LineV::SkipCleanupNotice];
    assert(s.drop_first() =~= Seq::<LineV>::empty());
    assert(count_skip_notices(Seq::<LineV>::empty()) == 0);
}

proof fn lemma_count_list_zero(
    args: CliArgs,
    config: Config,
    res: Result<SubprocessResult, Vec<u8>>,
)
    ensures
        count_skip_notices(spec_list_lines(args, config, res)) == 0,
{
    match res {
        Result::Err(_) => {
            lemma_count_none(spec_list_lines(args, config, res));
        },
        Result::Ok(r) => {
            if r.success {
                let budget = config.max_packages_display as int;
                let ls = crate::text::spec_lines(r.stdout@);
                let n = ls.len() as int;
                let shown = if n <= budget {
                    n
                } else {
                    budget
                };
                let head = seq![LineV::PackageCount(n)];
                lemma_count_none(head);
                if n == 0 {
                    lemma_count_add(head, Seq::<LineV>::empty());
                    lemma_count_none(Seq::<LineV>::empty());
                } else {
                    let shown_lines = ls.take(shown).map_values(
                        |l: Seq<u8>| LineV::PackageLine(l),
                    );
                    let marker = if n > budget {
                        seq![LineV::MoreMarker(n - budget)]
                    } else {
                        Seq::<LineV>::empty()
                    };
                    let tail = seq![LineV::PackageListHeading] + shown_lines + marker;
                    lemma_count_none(seq![LineV::PackageListHeading]);
                    lemma_count_none(shown_lines);
                    lemma_count_none(marker);
                    lemma_count_add(seq![LineV::PackageListHeading], shown_lines);
                    lemma_count_add(seq![LineV::PackageListHeading] + shown_lines, marker);
                    lemma_count_add(head, tail);
                    assert(spec_list_lines(args, config, res) == head + tail);
                }
            } else {
                lemma_count_none(spec_list_lines(args, config, res));
            }
        },
    }
}

/// When cleanup is skipped, its subprocess is never invoked, in dry-run
/// and real mode alike, whatever the probe and the other steps returned.
pub proof fn lemma_skip_cleanup_never_invokes(
    args: CliArgs,
    config: Config,
    tool_available: bool,
    update_res: Result<SubprocessResult, Vec<u8>>,
    upgrade_res: Result<SubprocessResult, Vec<u8>>,
    cleanup_res: Result<SubprocessResult, Vec<u8>>,
    list_res: Result<SubprocessResult, Vec<u8>>,
)
    requires
        args.skip_cleanup,
    ensures
        !spec_run(
            args,
            config,
            tool_available,
            update_res,
            upgrade_res,
            cleanup_res,
            list_res,
        ).invocations.contains(Step::Cleanup),
{
    let t = spec_run(args, config, tool_available, update_res, upgrade_res, cleanup_res, list_res);
    if !tool_available {
        assert(t.invocations =~= Seq::<Step>::empty());
    } else if args.dry_run {
        assert(t.invocations =~= Seq::<Step>::empty());
    } else if spec_result_fatal(update_res) {
        assert(t.invocations =~= seq![Step::Update]);
    } else if spec_result_fatal(upgrade_res) {
        assert(t.invocations =~= seq![Step::Update, Step::Upgrade]);
    } else {
        assert(t.invocations =~= seq![Step::Update, Step::Upgrade, Step::Summary]);
    }
}

/// When cleanup is skipped and the run reaches the cleanup stage — the
/// gate passed and, in a real run, update and upgrade did not abort — the
/// skip notice is printed exactly once.
pub proof fn lemma_skip_notice_exactly_once(
    args: CliArgs,
    config: Config,
    tool_available: bool,
    update_res: Result<SubprocessResult, Vec<u8>>,
    upgrade_res: Result<SubprocessResult, Vec<u8>>,
    cleanup_res: Result<SubprocessResult, Vec<u8>>,
    list_res: Result<SubprocessResult, Vec<u8>>,
)
    requires
        args.skip_cleanup,
        tool_available,
        args.dry_run || (!spec_result_fatal(update_res) && !spec_result_fatal(upgrade_res)),
    ensures
        count_skip_notices(
            spec_run(
                args,
                config,
                tool_available,
                update_res,
                upgrade_res,
                cleanup_res,
                list_res,
            ).lines,
        ) == 1,
{
    let t = spec_run(args, config, tool_available, update_res, upgrade_res, cleanup_res, list_res);
    lemma_count_single_skip();
    if args.dry_run {
        lemma_dry_run_previews_only(
            args,
            config,
            tool_available,
            update_res,
            upgrade_res,
            cleanup_res,
            list_res,
        );
        let header = spec_header_lines(args);
        let u_part = seq![LineV::StepAnnounce(Step::Update), LineV::WouldRun(Step::Update)];
        let g_part = seq![LineV::StepAnnounce(Step::Upgrade), LineV::WouldRun(Step::Upgrade)];
        let skip_part = seq![LineV::SkipCleanupNotice];
        let s_part = seq![LineV::StepAnnounce(Step::Summary), LineV::WouldRun(Step::Summary)];
        let end_part = seq![LineV::CompletionBanner];
        lemma_count_none(header);
        lemma_count_none(u_part);
        lemma_count_none(g_part);
        lemma_count_none(s_part);
        lemma_count_none(end_part);
        lemma_count_add(header, u_part);
        lemma_count_add(header + u_part, g_part);
        lemma_count_add(header + u_part + g_part, skip_part);
        lemma_count_add(header + u_part + g_part + skip_part, s_part);
        lemma_count_add(header + u_part + g_part + skip_part + s_part, end_part);
        assert(t.lines == header + u_part + g_part + skip_part + s_part + end_part);
    } else {
        let header = spec_header_lines(args);
        let pre_u = spec_pre_lines(State::AtStep(Step::Update), args);
        let succ_u = spec_success_lines(spec_stdout_of(update_res));
        let pre_g = spec_pre_lines(State::AtStep(Step::Upgrade), args);
        let succ_g = spec_success_lines(spec_stdout_of(upgrade_res));
        let skip_part = seq![LineV::SkipCleanupNotice];
        let pre_s = spec_pre_lines(State::AtStep(Step::Summary), args);
        let list_part = spec_list_lines(args, config, list_res);
        let end_part = seq![LineV::CompletionBanner];
        lemma_count_none(header);
        lemma_count_none(pre_u);
        lemma_count_none(succ_u);
        lemma_count_none(pre_g);
        lemma_count_none(succ_g);
        lemma_count_none(pre_s);
        lemma_count_list_zero(args, config, list_res);
        lemma_count_none(end_part);
        lemma_count_add(header, pre_u);
        lemma_count_add(header + pre_u, succ_u);
        lemma_count_add(header + pre_u + succ_u, pre_g);
        lemma_count_add(header + pre_u + succ_u + pre_g, succ_g);
        lemma_count_add(header + pre_u + succ_u + pre_g + succ_g, skip_part);
        lemma_count_add(header + pre_u + succ_u + pre_g + succ_g + skip_part, pre_s);
        lemma_count_add(header + pre_u + succ_u + pre_g + succ_g + skip_part + pre_s, list_part);
        lemma_count_add(
            header + pre_u + succ_u + pre_g + succ_g + skip_part + pre_s + list_part,
            end_part,
        );
        assert(t.lines =~= header + pre_u + succ_u + pre_g + succ_g + skip_part + pre_s
            + list_part + end_part);
    }
}

/// Running the workflow again with the same configuration, probe answer
/// and tool behaviour reproduces the same lines, the same invocations in
/// the same order, and the same exit code: no state carries over from one
/// run into the next.
pub proof fn lemma_rerun_agrees(
    args: CliArgs,
    config: Config,
    tool_available: bool,
    update_res: Result<SubprocessResult, Vec<u8>>,
    upgrade_res: Result<SubprocessResult, Vec<u8>>,
    cleanup_res: Result<SubprocessResult, Vec<u8>>,
    list_res: Result<SubprocessResult, Vec<u8>>,
    first: TraceV,
    second: TraceV,
)
    requires
        first == spec_run(
            args,
            config,
            tool_available,
            update_res,
            upgrade_res,
            cleanup_res,
            list_res,
        ),
        second == spec_run(
            args,
            config,
            tool_available,
            update_res,
            upgrade_res,
            cleanup_res,
            list_res,
        ),
    ensures
        first.lines == second.lines,
        first.invocations == second.invocations,
        first.exit_code == second.exit_code,
{
}

} // verus!
