//! The supervising context of a run, as a sequence of steps.
//!
//! The context itself lives with the caller, who opens and starts the
//! streams and sleeps. After each action the caller reports how it went and
//! is told what to do next.

use crate::audio_manager::AUDIO_STREAMER_INTERVAL_MILLIS;
use crate::error::EngineError;
use crate::stopper::Stopper;
use vstd::prelude::*;

verus! {

/// What the supervising context is about to do, or how it ended.
#[derive(Clone, Copy, Debug, PartialEq, Eq, Structural)]
pub enum Stage {
    /// About to open the capture stream.
    OpenCapture,
    /// About to open the render stream.
    OpenRender,
    /// About to start the capture stream.
    StartCapture,
    /// About to start the render stream.
    StartRender,
    /// Both streams run; about to sleep before the next look at the
    /// cancellation signal.
    Watching,
    /// The run ended because it was told to.
    Ended,
    /// The run ended because a stream could not be opened or started.
    Failed,
}

/// What the caller is to do next.
#[derive(Clone, Copy, Debug, PartialEq, Eq)]
pub enum Step {
    /// Open the capture stream, bound to the capture side of the buffer.
    OpenCapture,
    /// Open the render stream, bound to the render side of the buffer.
    OpenRender,
    /// Start the capture stream.
    StartCapture,
    /// Start the render stream.
    StartRender,
    /// Sleep for this many milliseconds.
    Sleep(u64),
    /// Leave the context with this result.
    Exit(Result<(), EngineError>),
}

/// The step that a context in `stage` takes.
pub open spec fn step_of(stage: Stage) -> Step {
    match stage {
        Stage::OpenCapture => Step::OpenCapture,
        Stage::OpenRender => Step::OpenRender,
        Stage::StartCapture => Step::StartCapture,
        Stage::StartRender => Step::StartRender,
        Stage::Watching => Step::Sleep(AUDIO_STREAMER_INTERVAL_MILLIS),
        Stage::Ended => Step::Exit(Ok(())),
        Stage::Failed => Step::Exit(Err(EngineError::StreamSetupFailed)),
    }
}

/// The stage that follows `stage`, given whether the action of `stage`
/// succeeded and whether the cancellation signal is set.
///
/// A failure to open or start a stream ends the run. Once both streams run,
/// the signal is looked at before every sleep, and ends the run when set.
pub open spec fn next_stage(stage: Stage, succeeded: bool, signalled: bool) -> Stage {
    match stage {
        Stage::OpenCapture => if succeeded {
            Stage::OpenRender
        } else {
            Stage::Failed
        },
        Stage::OpenRender => if succeeded {
            Stage::StartCapture
        } else {
            Stage::Failed
        },
        Stage::StartCapture => if succeeded {
            Stage::StartRender
        } else {
            Stage::Failed
        },
        Stage::StartRender => if !succeeded {
            Stage::Failed
        } else if signalled {
            Stage::Ended
        } else {
            Stage::Watching
        },
        Stage::Watching => if signalled {
            Stage::Ended
        } else {
            Stage::Watching
        },
        Stage::Ended => Stage::Ended,
        Stage::Failed => Stage::Failed,
    }
}

/// Whether the stage that follows `stage` depends on the cancellation
/// signal.
pub open spec fn looks_at_signal(stage: Stage, succeeded: bool) -> bool {
    (stage is StartRender && succeeded) || stage is Watching
}

/// Decides the stage that follows `stage`: see `next_stage`.
pub fn advance_stage(stage: Stage, succeeded: bool, signalled: bool) -> (next: Stage)
    ensures
        next == next_stage(stage, succeeded, signalled),
{
    match stage {
        Stage::OpenCapture => if succeeded {
            Stage::OpenRender
        } else {
            Stage::Failed
        },
        Stage::OpenRender => if succeeded {
            Stage::StartCapture
        } else {
            Stage::Failed
        },
        Stage::StartCapture => if succeeded {
            Stage::StartRender
        } else {
            Stage::Failed
        },
        Stage::StartRender => if !succeeded {
            Stage::Failed
        } else if signalled {
            Stage::Ended
        } else {
            Stage::Watching
        },
        Stage::Watching => if signalled {
            Stage::Ended
        } else {
            Stage::Watching
        },
        Stage::Ended => Stage::Ended,
        Stage::Failed => Stage::Failed,
    }
}

/// Gives the step that a context in `stage` takes: see `step_of`.
pub fn step_for(stage: Stage) -> (step: Step)
    ensures
        step == step_of(stage),
{
    match stage {
        Stage::OpenCapture => Step::OpenCapture,
        Stage::OpenRender => Step::OpenRender,
        Stage::StartCapture => Step::StartCapture,
        Stage::StartRender => Step::StartRender,
        Stage::Watching => Step::Sleep(AUDIO_STREAMER_INTERVAL_MILLIS),
        Stage::Ended => Step::Exit(Ok(())),
        Stage::Failed => Step::Exit(Err(EngineError::StreamSetupFailed)),
    }
}

/// The supervising context of one run: its stage and the cancellation
/// signal that it watches.
pub struct Supervisor {
    stage: Stage,
    stopper: Stopper,
}

impl Supervisor {
    /// The stage the context is in.
    pub closed spec fn spec_stage(&self) -> Stage {
        self.stage
    }

    /// A context that has yet to open its streams and that watches
    /// `stopper`.
    pub fn new(stopper: Stopper) -> (supervisor: Supervisor)
        ensures
            supervisor.spec_stage() == Stage::OpenCapture,
            supervisor.spec_stopper() == stopper,
    {
        Supervisor { stage: Stage::OpenCapture, stopper }
    }

    /// The stage the context is in.
    pub fn stage(&self) -> (stage: Stage)
        ensures
            stage == self.spec_stage(),
    {
        self.stage
    }

    /// The step to take now.
    pub fn step(&self) -> (step: Step)
        ensures
            step == step_of(self.spec_stage()),
    {
        step_for(self.stage)
    }

    /// Moves on after the caller has taken the current step, given whether
    /// it succeeded, and gives the next step. Where the next stage depends
    /// on the cancellation signal the signal is read now; what it reads is
    /// up to the controller, so either answer may come.
    pub fn advance(&mut self, succeeded: bool) -> (step: Step)
        ensures
            step == step_of(final(self).spec_stage()),
            final(self).spec_stopper() == old(self).spec_stopper(),
            final(self).spec_stage() == next_stage(old(self).spec_stage(), succeeded, true)
                || final(self).spec_stage() == next_stage(
                old(self).spec_stage(),
                succeeded,
                false,
            ),
            !looks_at_signal(old(self).spec_stage(), succeeded) ==> final(self).spec_stage()
                == next_stage(old(self).spec_stage(), succeeded, false),
    {
        let signalled = match self.stage {
            Stage::StartRender => succeeded && self.stopper.is_stop_requested(),
            Stage::Watching => self.stopper.is_stop_requested(),
            _ => false,
        };
        self.stage = advance_stage(self.stage, succeeded, signalled);
        step_for(self.stage)
    }

    /// The cancellation signal that the context watches.
    pub closed spec fn spec_stopper(&self) -> Stopper {
        self.stopper
    }
}

/// Whether the streams are still being opened and started in `stage`.
pub open spec fn setting_up(stage: Stage) -> bool {
    stage is OpenCapture || stage is OpenRender || stage is StartCapture || stage is StartRender
}

/// Any failure to open or start a stream ends the run at once with
/// `StreamSetupFailed`, whether or not a stop was requested.
pub proof fn setup_failure_ends_the_run(stage: Stage, signalled: bool)
    requires
        setting_up(stage),
    ensures
        next_stage(stage, false, signalled) is Failed,
        step_of(next_stage(stage, false, signalled)) == Step::Exit(
            Err(EngineError::StreamSetupFailed),
        ),
{
}

/// Once both streams run, the context sleeps the interval again and again
/// and leaves, with success, exactly when it finds the signal set.
pub proof fn watching_ends_only_on_the_signal(succeeded: bool, signalled: bool)
    ensures
        next_stage(Stage::Watching, succeeded, signalled) is Ended <==> signalled,
        !signalled ==> step_of(next_stage(Stage::Watching, succeeded, signalled)) == Step::Sleep(
            AUDIO_STREAMER_INTERVAL_MILLIS,
        ),
        signalled ==> step_of(next_stage(Stage::Watching, succeeded, signalled)) == Step::Exit(
            Ok(()),
        ),
{
}

/// A run that has ended stays ended, with the result it ended with.
pub proof fn an_ended_run_stays_ended(stage: Stage, succeeded: bool, signalled: bool)
    requires
        stage is Ended || stage is Failed,
    ensures
        next_stage(stage, succeeded, signalled) == stage,
{
}

/// No stream is started before both are open, and the signal is not looked
/// at before both are started: while setting up, success leads to the next
/// stage of setting up, or from the last one to watching or leaving.
pub proof fn setup_goes_in_order(signalled: bool)
    ensures
        next_stage(Stage::OpenCapture, true, signalled) is OpenRender,
        next_stage(Stage::OpenRender, true, signalled) is StartCapture,
        next_stage(Stage::StartCapture, true, signalled) is StartRender,
        next_stage(Stage::StartRender, true, signalled) == (if signalled {
            Stage::Ended
        } else {
            Stage::Watching
        }),
{
}

} // verus!
