//! How a local endpoint is bound, and how often a connection is tried.

use vstd::prelude::*;

verus! {

/// A step of binding a socket file.
#[derive(Debug, Clone, Copy, PartialEq, Eq, Structural)]
pub enum BindStep {
    /// Create the directory of the file.
    CreateDirectory,
    /// Bind the file.
    Bind,
    /// Connect to the file, to see whether somebody listens.
    Probe,
    /// Remove the file that nobody listens on.
    RemoveStale,
    /// Bind the file again.
    Rebind,
}

/// How a step ended.
#[derive(Debug, Clone, Copy, PartialEq, Eq, Structural)]
pub enum StepOutcome {
    Done,
    AddressInUse,
    Failed,
}

/// What follows a step.
#[derive(Debug, Clone, Copy, PartialEq, Eq, Structural)]
pub enum BindNext {
    Run(BindStep),
    /// The endpoint is bound.
    Listening,
    /// Binding failed with the error of the step that ended last.
    FailWithLastError,
    /// Binding failed, because the address is in use, with the error of the first
    /// `Bind`.
    FailWithBindError,
}

/// What follows a step. Binding is tried before anything is removed: of two
/// daemons that start at the same time, neither removes the other's file. Only
/// where the address is in use, and nobody listens on it, the file is a leftover,
/// and is removed and bound once more.
pub open spec fn bind_next(step: BindStep, outcome: StepOutcome) -> BindNext {
    match (step, outcome) {
        (BindStep::CreateDirectory, StepOutcome::Done) => BindNext::Run(BindStep::Bind),
        (BindStep::CreateDirectory, _) => BindNext::FailWithLastError,
        (BindStep::Bind, StepOutcome::Done) => BindNext::Listening,
        (BindStep::Bind, StepOutcome::AddressInUse) => BindNext::Run(BindStep::Probe),
        (BindStep::Bind, StepOutcome::Failed) => BindNext::FailWithLastError,
        (BindStep::Probe, StepOutcome::Done) => BindNext::FailWithBindError,
        (BindStep::Probe, _) => BindNext::Run(BindStep::RemoveStale),
        (BindStep::RemoveStale, _) => BindNext::Run(BindStep::Rebind),
        (BindStep::Rebind, StepOutcome::Done) => BindNext::Listening,
        (BindStep::Rebind, _) => BindNext::FailWithLastError,
    }
}

/// The step that binding starts with.
pub fn first_bind_step(has_parent: bool) -> (step: BindStep)
    ensures
        step == (if has_parent {
            BindStep::CreateDirectory
        } else {
            BindStep::Bind
        }),
{
    if has_parent {
        BindStep::CreateDirectory
    } else {
        BindStep::Bind
    }
}

/// What follows a step of binding.
pub fn bind(step: BindStep, outcome: StepOutcome) -> (next: BindNext)
    ensures
        next == bind_next(step, outcome),
{
    match step {
        BindStep::CreateDirectory => match outcome {
            StepOutcome::Done => BindNext::Run(BindStep::Bind),
            _ => BindNext::FailWithLastError,
        },
        BindStep::Bind => match outcome {
            StepOutcome::Done => BindNext::Listening,
            StepOutcome::AddressInUse => BindNext::Run(BindStep::Probe),
            StepOutcome::Failed => BindNext::FailWithLastError,
        },
        BindStep::Probe => match outcome {
            StepOutcome::Done => BindNext::FailWithBindError,
            _ => BindNext::Run(BindStep::RemoveStale),
        },
        BindStep::RemoveStale => BindNext::Run(BindStep::Rebind),
        BindStep::Rebind => match outcome {
            StepOutcome::Done => BindNext::Listening,
            _ => BindNext::FailWithLastError,
        },
    }
}

/// The place of a step in the course of binding.
pub open spec fn bind_rank(step: BindStep) -> nat {
    match step {
        BindStep::CreateDirectory => 0,
        BindStep::Bind => 1,
        BindStep::Probe => 2,
        BindStep::RemoveStale => 3,
        BindStep::Rebind => 4,
    }
}

/// How binding ends, from `step` on, where each step ends as `outcomes` says.
pub open spec fn bind_result(step: BindStep, outcomes: spec_fn(BindStep) -> StepOutcome) -> BindNext
    decreases 4 - bind_rank(step),
{
    match bind_next(step, outcomes(step)) {
        BindNext::Run(following) => if bind_rank(following) > bind_rank(step) {
            bind_result(following, outcomes)
        } else {
            BindNext::Run(following)
        },
        end => end,
    }
}

/// Binding always comes to an end, and runs no step twice: the file is bound again
/// at most once.
pub proof fn binding_ends(step: BindStep, outcomes: spec_fn(BindStep) -> StepOutcome)
    ensures
        bind_result(step, outcomes) !is Run,
        forall|following: BindStep|
            bind_next(step, outcomes(step)) == BindNext::Run(following) ==> bind_rank(following)
                > bind_rank(step),
    decreases 4 - bind_rank(step),
{
    if let BindNext::Run(following) = bind_next(step, outcomes(step)) {
        binding_ends(following, outcomes);
    }
}

/// A live owner keeps its socket: where the address is in use and somebody
/// listens on it, binding fails with that error, and the file is not removed.
pub proof fn live_owner_wins(outcomes: spec_fn(BindStep) -> StepOutcome)
    requires
        outcomes(BindStep::Bind) == StepOutcome::AddressInUse,
        outcomes(BindStep::Probe) == StepOutcome::Done,
    ensures
        bind_result(BindStep::Bind, outcomes) == BindNext::FailWithBindError,
        forall|step: BindStep, outcome: StepOutcome|
            bind_next(step, outcome) == BindNext::Run(BindStep::RemoveStale) ==> step
                == BindStep::Probe && outcome != StepOutcome::Done,
{
    reveal_with_fuel(bind_result, 3);
}

/// A file that nobody listens on does not stand in the way: where the address is
/// in use and nobody answers, binding ends as the second attempt ends.
pub proof fn stale_file_is_replaced(outcomes: spec_fn(BindStep) -> StepOutcome)
    requires
        outcomes(BindStep::Bind) == StepOutcome::AddressInUse,
        outcomes(BindStep::Probe) != StepOutcome::Done,
    ensures
        bind_result(BindStep::Bind, outcomes) is Listening <==> outcomes(BindStep::Rebind)
            == StepOutcome::Done,
{
    reveal_with_fuel(bind_result, 5);
}

/// What to do after a number of failed attempts to connect.
#[derive(Debug, Clone, Copy, PartialEq, Eq, Structural)]
pub enum Attempt {
    /// Connect at once.
    Now,
    /// Connect after so many milliseconds.
    After(u64),
    /// Report the error of the last attempt.
    GiveUp,
}

/// How many times the proxy tries to connect to a socket that is being bound.
pub const PROXY_ATTEMPTS: u32 = 50;

/// How many times the command line tries to connect to a daemon that it launched.
pub const DAEMON_ATTEMPTS: u32 = 30;

/// The pause between two attempts, in milliseconds.
pub const ATTEMPT_PAUSE_MS: u64 = 100;

} // verus!
