//! The pipeline's shutdown protocol, as a pure state machine.
//!
//! The render loop drives the whole pipeline through three states:
//! `Running` while both background stages are active, `Draining` once
//! cancellation has been signaled, and `Joined` once both background stages
//! have returned. Each background stage (capture, decode) runs a loop of
//! its own; its per-iteration decision is modeled here too, so that the
//! cooperative-cancellation and fail-stop policies are stated and proved
//! rather than implied.

use vstd::prelude::*;

verus! {

/// Lifecycle of the whole pipeline.
#[derive(Clone, Copy, Debug, PartialEq, Eq, Structural)]
pub enum PipelineState {
    /// Both background stages active, render loop consuming.
    Running,
    /// Cancellation signaled; waiting for both background stages to
    /// observe it and return.
    Draining,
    /// Both background stages have returned. Terminal.
    Joined,
}

/// What the render loop observed in one of its iterations.
#[derive(Clone, Copy, Debug, PartialEq, Eq, Structural)]
pub enum PipelineEvent {
    /// The display reported a close request.
    CloseRequested,
    /// Receiving a decoded frame failed: the decode stage is gone.
    FrameChannelClosed,
    /// Presenting a frame failed.
    DisplayFailed,
    /// Both background stages were waited for and have returned.
    StagesJoined,
}

/// Position of a state in the forward-only lifecycle order.
pub open spec fn spec_state_rank(s: PipelineState) -> int {
    match s {
        PipelineState::Running => 0,
        PipelineState::Draining => 1,
        PipelineState::Joined => 2,
    }
}

/// The coordinator's transition relation. From `Running`, a close request,
/// a closed frame channel or a display failure all begin draining; stages
/// can only be reported joined after draining began, so that event leaves
/// `Running` unchanged. From `Draining`, the pipeline reaches `Joined`
/// exactly when both stages have returned, whatever made them return.
/// `Joined` is terminal.
pub open spec fn spec_coordinator_step(s: PipelineState, e: PipelineEvent) -> PipelineState {
    match s {
        PipelineState::Running => match e {
            PipelineEvent::StagesJoined => PipelineState::Running,
            _ => PipelineState::Draining,
        },
        PipelineState::Draining => match e {
            PipelineEvent::StagesJoined => PipelineState::Joined,
            _ => PipelineState::Draining,
        },
        PipelineState::Joined => PipelineState::Joined,
    }
}

/// Advances the coordinator by one observed event.
pub fn coordinator_step(s: PipelineState, e: PipelineEvent) -> (t: PipelineState)
    ensures
        t == spec_coordinator_step(s, e),
{
    match s {
        PipelineState::Running => match e {
            PipelineEvent::StagesJoined => PipelineState::Running,
            _ => PipelineState::Draining,
        },
        PipelineState::Draining => match e {
            PipelineEvent::StagesJoined => PipelineState::Joined,
            _ => PipelineState::Draining,
        },
        PipelineState::Joined => PipelineState::Joined,
    }
}

/// Law: the lifecycle only moves forward — no event ever takes the
/// pipeline from a later state back to an earlier one, and `Joined` is
/// terminal.
pub proof fn lemma_coordinator_monotonic(s: PipelineState, e: PipelineEvent)
    ensures
        spec_state_rank(spec_coordinator_step(s, e)) >= spec_state_rank(s),
        s is Joined ==> spec_coordinator_step(s, e) is Joined,
{
}

/// Law: once draining, the arrival of `StagesJoined` — and nothing else —
/// completes the shutdown, whether the stages exited because of the
/// cancellation signal or because of their own errors.
pub proof fn lemma_draining_completes(e: PipelineEvent)
    ensures
        spec_coordinator_step(PipelineState::Draining, e) == if e is StagesJoined {
            PipelineState::Joined
        } else {
            PipelineState::Draining
        },
{
}

/// Whether a background stage is still looping.
#[derive(Clone, Copy, Debug, PartialEq, Eq, Structural)]
pub enum StageStatus {
    /// The stage keeps polling its cancellation signal and producing.
    Active,
    /// The stage has left its loop and will return. Terminal.
    Stopped,
}

/// What one iteration of a background stage's loop observed.
#[derive(Clone, Copy, Debug, PartialEq, Eq, Structural)]
pub enum StageEvent {
    /// The pre-iteration poll saw the cancellation signal.
    CancelSignaled,
    /// The blocking receive from upstream failed: the producer is gone.
    UpstreamClosed,
    /// The stage's own work failed (a capture error, a malformed frame).
    WorkFailed,
    /// The hand-off downstream was refused: the consumer is gone.
    DownstreamClosed,
    /// The item was produced and handed off.
    Delivered,
}

/// A background stage's per-iteration decision: it keeps running only
/// while items keep flowing; any failure is fail-stop, with no retry, and
/// an observed cancellation signal stops it too.
pub open spec fn spec_stage_step(st: StageStatus, ev: StageEvent) -> StageStatus {
    match st {
        StageStatus::Stopped => StageStatus::Stopped,
        StageStatus::Active => match ev {
            StageEvent::Delivered => StageStatus::Active,
            _ => StageStatus::Stopped,
        },
    }
}

/// Advances a background stage by one observed event.
pub fn stage_step(st: StageStatus, ev: StageEvent) -> (r: StageStatus)
    ensures
        r == spec_stage_step(st, ev),
{
    match st {
        StageStatus::Stopped => StageStatus::Stopped,
        StageStatus::Active => match ev {
            StageEvent::Delivered => StageStatus::Active,
            _ => StageStatus::Stopped,
        },
    }
}

/// Law (cooperative cancellation): whatever a stage was doing, in the
/// first iteration whose poll observes the cancellation signal it decides
/// to stop — shutdown waits for at most the blocking call in flight.
pub proof fn lemma_cancel_stops_stage(st: StageStatus)
    ensures
        spec_stage_step(st, StageEvent::CancelSignaled) is Stopped,
{
}

/// Law (fail-stop): a stopped stage never resumes, whatever it observes.
pub proof fn lemma_stopped_is_terminal(ev: StageEvent)
    ensures
        spec_stage_step(StageStatus::Stopped, ev) is Stopped,
{
}

} // verus!
