//! The controller: a three-state machine, stepped once per tick of the host's
//! event loop, that decides when a frame is handed to the worker, when a
//! finished frame is taken back for display, and when to idle.
use vstd::prelude::*;
use crate::buffer::Buffer;
use crate::render::{same_shape, RenderCommand, RenderParameters, RenderResult};
use std::time::Duration;

verus! {

/// Where the controller stands. Exactly one frame circulates: held here in
/// `PendingSubmit` and `Ready`, and by the worker in `AwaitingResult`.
pub enum ControllerState {
    /// The frame is about to be sent for rendering with `params`.
    PendingSubmit { buffer: Buffer, params: RenderParameters },
    /// The frame is with the worker, being rendered with `params`.
    AwaitingResult { params: RenderParameters },
    /// The frame, rendered with `params`, is on display.
    Ready { buffer: Buffer, params: RenderParameters },
}

/// What the host does after a step.
pub enum Action {
    /// Nothing to do this tick.
    Idle,
    /// Send this command to the worker.
    Submit(RenderCommand),
    /// Display the frame now held in the `Ready` state, which took this long
    /// to render.
    Present(Duration),
}

/// The controller's transition for one tick: `requested` is the parameter
/// set the host asks for this tick, if any; `polled` is the result the host
/// found waiting from the worker, if any.
pub open spec fn next(
    state: ControllerState,
    requested: Option<RenderParameters>,
    polled: Option<RenderResult>,
) -> (ControllerState, Action) {
    match state {
        ControllerState::PendingSubmit { buffer, params } => (
            ControllerState::AwaitingResult { params },
            Action::Submit(RenderCommand::RenderRequest { buffer, params }),
        ),
        ControllerState::AwaitingResult { params } => match polled {
            Some(result) => (
                ControllerState::Ready { buffer: result.buffer, params },
                Action::Present(result.render_time),
            ),
            None => (ControllerState::AwaitingResult { params }, Action::Idle),
        },
        ControllerState::Ready { buffer, params } => {
            if requested is Some && requested->0 != params {
                (ControllerState::PendingSubmit { buffer, params: requested->0 }, Action::Idle)
            } else {
                (ControllerState::Ready { buffer, params }, Action::Idle)
            }
        },
    }
}

/// The run of the controller over a sequence of ticks, each giving what
/// `next` takes: the final state and the number of commands submitted.
pub open spec fn run(
    state: ControllerState,
    ticks: Seq<(Option<RenderParameters>, Option<RenderResult>)>,
) -> (ControllerState, nat)
    decreases ticks.len(),
{
    if ticks.len() == 0 {
        (state, 0)
    } else {
        let step = next(state, ticks[0].0, ticks[0].1);
        let rest = run(step.0, ticks.drop_first());
        (rest.0, rest.1 + if step.1 is Submit { 1nat } else { 0nat })
    }
}

impl ControllerState {
    /// The frame this state holds, if it holds one.
    pub open spec fn held_buffer(self) -> Option<Buffer> {
        match self {
            ControllerState::PendingSubmit { buffer, .. } => Some(buffer),
            ControllerState::AwaitingResult { .. } => None,
            ControllerState::Ready { buffer, .. } => Some(buffer),
        }
    }

    /// A frame held here is well formed.
    pub open spec fn wf(self) -> bool {
        self.held_buffer() is Some ==> self.held_buffer()->0.wf()
    }

    /// Whether the controller waits for a result from the worker, that is
    /// whether the host should poll for one this tick.
    pub fn awaits_result(&self) -> (r: bool)
        ensures
            r == (*self is AwaitingResult),
    {
        match self {
            ControllerState::AwaitingResult { .. } => true,
            _ => false,
        }
    }

    /// One tick of the controller; a result may only be handed in while one
    /// is awaited.
    pub fn step(self, requested: Option<RenderParameters>, polled: Option<RenderResult>) -> (r: (
        ControllerState,
        Action,
    ))
        requires
            polled is Some ==> self is AwaitingResult,
        ensures
            r == next(self, requested, polled),
            self.wf() && (polled is Some ==> polled->0.buffer.wf()) ==> r.0.wf(),
    {
        match self {
            ControllerState::PendingSubmit { buffer, params } => (
                ControllerState::AwaitingResult { params },
                Action::Submit(RenderCommand::RenderRequest { buffer, params }),
            ),
            ControllerState::AwaitingResult { params } => match polled {
                Some(result) => (
                    ControllerState::Ready { buffer: result.buffer, params },
                    Action::Present(result.render_time),
                ),
                None => (ControllerState::AwaitingResult { params }, Action::Idle),
            },
            ControllerState::Ready { buffer, params } => match requested {
                Some(new_params) => {
                    if new_params != params {
                        (ControllerState::PendingSubmit { buffer, params: new_params }, Action::Idle)
                    } else {
                        (ControllerState::Ready { buffer, params }, Action::Idle)
                    }
                },
                None => (ControllerState::Ready { buffer, params }, Action::Idle),
            },
        }
    }
}

/// Sending a frame to the worker gives it up: the step that submits a
/// command moves the frame it held into that command and leaves a state that
/// holds no frame.
pub proof fn lemma_submit_gives_up_buffer(
    state: ControllerState,
    requested: Option<RenderParameters>,
    polled: Option<RenderResult>,
)
    requires
        next(state, requested, polled).1 is Submit,
    ensures
        next(state, requested, polled).0.held_buffer() is None,
        next(state, requested, polled).0 is AwaitingResult,
        next(state, requested, polled).1 == Action::Submit(
            RenderCommand::RenderRequest {
                buffer: state.held_buffer()->0,
                params: next(state, requested, polled).0->AwaitingResult_params,
            },
        ),
{
}

/// While a render is in flight and no result has come back, no tick submits
/// anything and the state stays as it is, whatever parameters are requested.
pub proof fn lemma_one_in_flight(
    params: RenderParameters,
    ticks: Seq<(Option<RenderParameters>, Option<RenderResult>)>,
)
    requires
        forall|i: int| 0 <= i < ticks.len() ==> (#[trigger] ticks[i]).1 is None,
    ensures
        run(ControllerState::AwaitingResult { params }, ticks) == (
            ControllerState::AwaitingResult { params },
            0nat,
        ),
    decreases ticks.len(),
{
    if ticks.len() > 0 {
        let rest = ticks.drop_first();
        assert forall|i: int| 0 <= i < rest.len() implies (#[trigger] rest[i]).1 is None by {
            assert(rest[i] == ticks[i + 1]);
        }
        assert(ticks[0].1 is None);
        lemma_one_in_flight(params, rest);
    }
}

/// A displayed frame stays on display, and nothing is submitted, over ticks
/// that request nothing or the parameters it was rendered with.
pub proof fn lemma_idle_when_unchanged(
    buffer: Buffer,
    params: RenderParameters,
    ticks: Seq<(Option<RenderParameters>, Option<RenderResult>)>,
)
    requires
        forall|i: int|
            0 <= i < ticks.len() ==> (#[trigger] ticks[i]).0 is None || ticks[i].0 == Some(
                params,
            ),
    ensures
        run(ControllerState::Ready { buffer, params }, ticks) == (
            ControllerState::Ready { buffer, params },
            0nat,
        ),
    decreases ticks.len(),
{
    if ticks.len() > 0 {
        let rest = ticks.drop_first();
        assert forall|i: int| 0 <= i < rest.len() implies (#[trigger] rest[i]).0 is None
            || rest[i].0 == Some(params) by {
            assert(rest[i] == ticks[i + 1]);
        }
        assert(ticks[0].0 is None || ticks[0].0 == Some(params));
        lemma_idle_when_unchanged(buffer, params, rest);
    }
}

/// A full cycle keeps the frame's shape: the frame submitted from
/// `PendingSubmit`, once the worker hands back a frame of the same shape (as
/// it does), is displayed in `Ready` with the width, height and number of
/// pixels it was sent with, and with the parameters it was sent for.
pub proof fn lemma_cycle_keeps_shape(
    buffer: Buffer,
    params: RenderParameters,
    requested: Option<RenderParameters>,
    later: Option<RenderParameters>,
    returned: RenderResult,
)
    requires
        same_shape(buffer, returned.buffer),
    ensures
        ({
            let sent = next(ControllerState::PendingSubmit { buffer, params }, requested, None);
            let back = next(sent.0, later, Some(returned));
            &&& sent.1 == Action::Submit(RenderCommand::RenderRequest { buffer, params })
            &&& back.0 is Ready
            &&& back.0->Ready_params == params
            &&& same_shape(buffer, back.0->Ready_buffer)
        }),
{
}

} // verus!
