//! Classification of a captured subprocess result into the three-way
//! success / warning / fatal split that the workflow branches on.

use vstd::prelude::*;

use crate::text::{blank, is_blank, spec_trim, trim_bytes};

verus! {

/// Captured result of one invocation of the external tool: its exit status
/// and the raw bytes of its standard output and standard error.
#[derive(Debug, PartialEq, Eq)]
pub struct SubprocessResult {
    /// Whether the process exited with a success status.
    pub success: bool,
    /// Captured standard output.
    pub stdout: Vec<u8>,
    /// Captured standard error.
    pub stderr: Vec<u8>,
}

/// Why an invocation failed.
#[derive(Debug, PartialEq, Eq)]
pub enum Failure {
    /// The process could not be spawned; holds the reported error text.
    Spawn(Vec<u8>),
    /// The process ran but exited with a failure status; holds its
    /// standard-error text, trimmed.
    Status(Vec<u8>),
}

/// Mathematical value of a [`Failure`].
#[verifier::ext_equal]
pub enum FailureV {
    Spawn(Seq<u8>),
    Status(Seq<u8>),
}

impl View for Failure {
    type V = FailureV;

    open spec fn view(&self) -> FailureV {
        match self {
            Failure::Spawn(e) => FailureV::Spawn(e@),
            Failure::Status(e) => FailureV::Status(e@),
        }
    }
}

/// Result of one workflow step, consumed immediately by the orchestrator to
/// decide whether the pipeline continues, degrades, or aborts.
#[derive(Debug, PartialEq, Eq)]
pub enum StepOutcome {
    /// The step did its work.
    Succeeded,
    /// The step failed, but its failure policy lets the run continue.
    SucceededWithWarning(Failure),
    /// The step failed and the run must abort.
    FailedFatal(Failure),
}

/// Mathematical value of a [`StepOutcome`].
#[verifier::ext_equal]
pub enum StepOutcomeV {
    Succeeded,
    SucceededWithWarning(FailureV),
    FailedFatal(FailureV),
}

impl View for StepOutcome {
    type V = StepOutcomeV;

    open spec fn view(&self) -> StepOutcomeV {
        match self {
            StepOutcome::Succeeded => StepOutcomeV::Succeeded,
            StepOutcome::SucceededWithWarning(f) => StepOutcomeV::SucceededWithWarning(f@),
            StepOutcome::FailedFatal(f) => StepOutcomeV::FailedFatal(f@),
        }
    }
}

/// How a raw invocation result is classified, before any per-step policy:
/// a spawn failure is fatal with the spawn error text; a failure exit
/// status is fatal with the trimmed standard-error text; a success status
/// succeeds.
pub open spec fn spec_classify(res: Result<SubprocessResult, Vec<u8>>) -> StepOutcomeV {
    match res {
        Result::Err(e) => StepOutcomeV::FailedFatal(FailureV::Spawn(e@)),
        Result::Ok(r) => if r.success {
            StepOutcomeV::Succeeded
        } else {
            StepOutcomeV::FailedFatal(FailureV::Status(spec_trim(r.stderr@)))
        },
    }
}

/// Classifies a raw invocation result, before any per-step severity policy.
pub fn classify_invocation(res: Result<SubprocessResult, Vec<u8>>) -> (o: StepOutcome)
    ensures
        o@ == spec_classify(res),
{
    match res {
        Result::Err(e) => StepOutcome::FailedFatal(Failure::Spawn(e)),
        Result::Ok(r) => if r.success {
            StepOutcome::Succeeded
        } else {
            StepOutcome::FailedFatal(Failure::Status(trim_bytes(&r.stderr)))
        },
    }
}

/// Whether a raw invocation result classifies as fatal: the process could
/// not be spawned, or it exited with a failure status.
pub open spec fn spec_result_fatal(res: Result<SubprocessResult, Vec<u8>>) -> bool {
    match res {
        Result::Err(_) => true,
        Result::Ok(r) => !r.success,
    }
}

/// The failure a fatal raw result classifies as.
pub open spec fn spec_failure_of(res: Result<SubprocessResult, Vec<u8>>) -> FailureV {
    match res {
        Result::Err(e) => FailureV::Spawn(e@),
        Result::Ok(r) => FailureV::Status(spec_trim(r.stderr@)),
    }
}

/// The captured standard output of a successful raw result.
pub open spec fn spec_stdout_of(res: Result<SubprocessResult, Vec<u8>>) -> Seq<u8> {
    match res {
        Result::Ok(r) => r.stdout@,
        Result::Err(_) => Seq::empty(),
    }
}

/// What a successful mutating invocation prints: its captured standard
/// output, or a short acknowledgment when that output is blank, so that the
/// user always sees progress confirmation.
pub open spec fn spec_shows_done_ack(stdout: Seq<u8>) -> bool {
    is_blank(stdout)
}

/// Whether the captured standard output of a successful invocation is
/// replaced by the short acknowledgment line.
pub fn shows_done_ack(stdout: &Vec<u8>) -> (r: bool)
    ensures
        r == spec_shows_done_ack(stdout@),
{
    blank(stdout)
}

} // verus!
