use vstd::prelude::*;

use crate::state::{
    count_of, frame_plan, lemma_state_ext, resized_size, FrameCommand, GraphicsState,
    SurfaceError,
};
use crate::surface::{resized_config, SurfaceConfig, SurfaceSize};

verus! {

/// Lifecycle of the window host. It only moves forward.
#[derive(Clone, Copy, Debug, PartialEq, Eq, Structural)]
pub enum HostPhase {
    /// No window or graphics state exists yet.
    Uninitialized,
    /// The window is open and frames are rendered.
    Running,
    /// The host has asked the event loop to stop.
    Terminated,
}

/// A window lifecycle event delivered by the platform.
#[derive(Clone, Copy, Debug, PartialEq, Eq, Structural)]
pub enum HostEvent {
    Resumed,
    Resized(SurfaceSize),
    CloseRequested,
    RedrawRequested,
    Other,
}

/// Work the host asks its caller to perform, in the order given.
#[derive(Clone, Copy, Debug, PartialEq, Eq)]
pub enum HostAction {
    /// Create the window and its graphics state, then report the outcome
    /// through `initialized`.
    Initialize,
    /// Acquire the next texture, then report the outcome through
    /// `frame_acquired`.
    RenderFrame,
    /// Perform one step of drawing the acquired frame.
    Draw(FrameCommand),
    /// Apply this configuration to the surface.
    Reconfigure(SurfaceConfig),
    /// Report a frame that was skipped because of this error.
    Report(SurfaceError),
    /// Ask the window for another redraw.
    RequestRedraw,
    /// Stop the event loop.
    Exit,
}

/// The draw actions for a sequence of frame steps.
pub open spec fn draw_actions(plan: Seq<FrameCommand>) -> Seq<HostAction> {
    plan.map_values(|c: FrameCommand| HostAction::Draw(c))
}

/// The phase after `event`: a close request ends the host, and nothing leaves
/// the terminal phase.
pub open spec fn event_phase(phase: HostPhase, event: HostEvent) -> HostPhase {
    if phase == HostPhase::Terminated || event == HostEvent::CloseRequested {
        HostPhase::Terminated
    } else {
        phase
    }
}

/// The actions that answer `event` in `phase`, with `state` the graphics
/// state held at that point.
pub open spec fn event_actions(
    phase: HostPhase,
    state: Option<GraphicsState>,
    event: HostEvent,
) -> Seq<HostAction> {
    if phase == HostPhase::Terminated {
        seq![]
    } else {
        match event {
            HostEvent::CloseRequested => seq![HostAction::Exit],
            HostEvent::Resumed => if phase == HostPhase::Uninitialized {
                seq![HostAction::Initialize]
            } else {
                seq![]
            },
            HostEvent::Resized(size) => if phase == HostPhase::Running && state is Some
                && !size.is_degenerate() {
                seq![HostAction::Reconfigure(resized_config(state->Some_0.config_view(), size))]
            } else {
                seq![]
            },
            HostEvent::RedrawRequested => if phase == HostPhase::Running {
                seq![HostAction::RenderFrame]
            } else {
                seq![]
            },
            HostEvent::Other => seq![],
        }
    }
}

/// The phase after a frame acquisition with outcome `acquired`: running out
/// of memory ends the host.
pub open spec fn frame_phase(phase: HostPhase, acquired: Result<(), SurfaceError>) -> HostPhase {
    if phase == HostPhase::Running && acquired == Err::<(), SurfaceError>(
        SurfaceError::OutOfMemory,
    ) {
        HostPhase::Terminated
    } else {
        phase
    }
}

/// The actions that follow a frame acquisition with outcome `acquired`.
/// A drawn frame, a lost surface and a skipped frame all ask for the next
/// redraw.
pub open spec fn frame_actions(
    phase: HostPhase,
    state: Option<GraphicsState>,
    acquired: Result<(), SurfaceError>,
) -> Seq<HostAction> {
    if phase != HostPhase::Running || state is None {
        seq![]
    } else {
        match acquired {
            Ok(()) => draw_actions(frame_plan()).push(HostAction::RequestRedraw),
            Err(SurfaceError::OutOfMemory) => seq![HostAction::Exit],
            Err(SurfaceError::Lost) => {
                let s = state->Some_0;
                if s.size_view().is_degenerate() {
                    seq![HostAction::RequestRedraw]
                } else {
                    seq![
                        HostAction::Reconfigure(resized_config(s.config_view(), s.size_view())),
                        HostAction::RequestRedraw,
                    ]
                }
            },
            Err(e) => seq![HostAction::Report(e), HostAction::RequestRedraw],
        }
    }
}

/// Routes window events and frame outcomes to the graphics state.
pub struct WindowHost {
    phase: HostPhase,
    state: Option<GraphicsState>,
}

impl WindowHost {
    pub closed spec fn phase_view(&self) -> HostPhase {
        self.phase
    }

    pub closed spec fn state_view(&self) -> Option<GraphicsState> {
        self.state
    }

    /// A running host holds a graphics state, an uninitialized one holds none,
    /// and any state held is well formed.
    pub open spec fn wf(&self) -> bool {
        &&& self.phase_view() == HostPhase::Uninitialized ==> self.state_view() is None
        &&& self.phase_view() == HostPhase::Running ==> self.state_view() is Some
        &&& self.state_view() matches Some(s) ==> s.wf()
    }

    /// A host that has not yet seen its window.
    pub fn new() -> (r: WindowHost)
        ensures
            r.wf(),
            r.phase_view() == HostPhase::Uninitialized,
    {
        WindowHost { phase: HostPhase::Uninitialized, state: None }
    }

    pub fn phase(&self) -> (r: HostPhase)
        ensures
            r == self.phase_view(),
    {
        self.phase
    }

    pub fn state(&self) -> (r: Option<&GraphicsState>)
        ensures
            r is Some <==> self.state_view() is Some,
            r matches Some(s) ==> self.state_view() == Some(*s),
    {
        self.state.as_ref()
    }

    /// Takes the outcome of initialization: a state starts the host, `None`
    /// (window, surface, adapter or device could not be had) ends it. Outside
    /// the uninitialized phase the outcome is dropped.
    pub fn initialized(&mut self, outcome: Option<GraphicsState>) -> (actions: Vec<HostAction>)
        requires
            old(self).wf(),
            outcome matches Some(s) ==> s.wf(),
        ensures
            final(self).wf(),
            old(self).phase_view() != HostPhase::Uninitialized ==> actions@ == Seq::<
                HostAction,
            >::empty() && *final(self) == *old(self),
            old(self).phase_view() == HostPhase::Uninitialized && outcome is Some ==> actions@
                == seq![HostAction::RequestRedraw] && final(self).phase_view()
                == HostPhase::Running && final(self).state_view() == outcome,
            old(self).phase_view() == HostPhase::Uninitialized && outcome is None ==> actions@
                == seq![HostAction::Exit] && final(self).phase_view() == HostPhase::Terminated,
    {
        let mut actions: Vec<HostAction> = Vec::new();
        if self.phase == HostPhase::Uninitialized {
            match outcome {
                Some(s) => {
                    self.state = Some(s);
                    self.phase = HostPhase::Running;
                    actions.push(HostAction::RequestRedraw);
                },
                None => {
                    self.phase = HostPhase::Terminated;
                    actions.push(HostAction::Exit);
                },
            }
        }
        actions
    }

    /// Answers a window event. A resize to a size with area updates the
    /// graphics state; every other event leaves it as it is.
    pub fn handle_event(&mut self, event: HostEvent) -> (actions: Vec<HostAction>)
        requires
            old(self).wf(),
        ensures
            final(self).wf(),
            actions@ == event_actions(old(self).phase_view(), old(self).state_view(), event),
            final(self).phase_view() == event_phase(old(self).phase_view(), event),
            old(self).phase_view() == HostPhase::Running && event is Resized ==> {
                let o = old(self).state_view()->Some_0;
                let s = final(self).state_view()->Some_0;
                &&& final(self).state_view() is Some
                &&& s.size_view() == resized_size(o.size_view(), event->Resized_0)
                &&& s.config_view() == resized_config(o.config_view(), event->Resized_0)
            },
            !(old(self).phase_view() == HostPhase::Running && event is Resized)
                ==> final(self).state_view() == old(self).state_view(),
    {
        let mut actions: Vec<HostAction> = Vec::new();
        if self.phase == HostPhase::Terminated {
            return actions;
        }
        match event {
            HostEvent::CloseRequested => {
                self.phase = HostPhase::Terminated;
                actions.push(HostAction::Exit);
            },
            HostEvent::Resumed => {
                if self.phase == HostPhase::Uninitialized {
                    actions.push(HostAction::Initialize);
                }
            },
            HostEvent::Resized(size) => {
                if self.phase == HostPhase::Running {
                    match &mut self.state {
                        Some(s) => {
                            if s.resize(size) {
                                actions.push(HostAction::Reconfigure(s.config()));
                            }
                        },
                        None => {},
                    }
                }
            },
            HostEvent::RedrawRequested => {
                if self.phase == HostPhase::Running {
                    actions.push(HostAction::RenderFrame);
                }
            },
            HostEvent::Other => {},
        }
        actions
    }

    /// Answers the outcome of acquiring the next texture for a frame: draws
    /// the frame, reconfigures a lost surface with the cached size, stops on
    /// running out of memory, or reports the skipped frame.
    pub fn frame_acquired(&mut self, acquired: Result<(), SurfaceError>) -> (actions: Vec<
        HostAction,
    >)
        requires
            old(self).wf(),
        ensures
            final(self).wf(),
            actions@ == frame_actions(old(self).phase_view(), old(self).state_view(), acquired),
            final(self).phase_view() == frame_phase(old(self).phase_view(), acquired),
            final(self).state_view() == old(self).state_view(),
    {
        let mut actions: Vec<HostAction> = Vec::new();
        if self.phase != HostPhase::Running {
            return actions;
        }
        match &mut self.state {
            None => {},
            Some(s) => match s.render_frame(acquired) {
                Ok(plan) => {
                    let mut i: usize = 0;
                    while i < plan.len()
                        invariant
                            0 <= i <= plan@.len(),
                            plan@ == frame_plan(),
                            actions@ == draw_actions(plan@.take(i as int)),
                        decreases plan@.len() - i,
                    {
                        let c = plan[i];
                        actions.push(HostAction::Draw(c));
                        assert(plan@.take(i as int + 1) == plan@.take(i as int).push(c));
                        i = i + 1;
                    }
                    assert(plan@.take(plan@.len() as int) == plan@);
                    actions.push(HostAction::RequestRedraw);
                },
                Err(SurfaceError::OutOfMemory) => {
                    self.phase = HostPhase::Terminated;
                    actions.push(HostAction::Exit);
                },
                Err(SurfaceError::Lost) => {
                    let ghost before = *s;
                    let size = s.size();
                    if s.resize(size) {
                        actions.push(HostAction::Reconfigure(s.config()));
                    }
                    proof {
                        lemma_state_ext(*s, before);
                    }
                    actions.push(HostAction::RequestRedraw);
                },
                Err(e) => {
                    actions.push(HostAction::Report(e));
                    actions.push(HostAction::RequestRedraw);
                },
            },
        }
        actions
    }
}

/// Once terminated, the host answers no event and no frame outcome with any
/// action, and stays terminated: no frame is rendered and no surface
/// reconfigured after it.
pub proof fn lemma_terminated_is_final(
    state: Option<GraphicsState>,
    event: HostEvent,
    acquired: Result<(), SurfaceError>,
)
    ensures
        event_phase(HostPhase::Terminated, event) == HostPhase::Terminated,
        event_actions(HostPhase::Terminated, state, event) == Seq::<HostAction>::empty(),
        frame_phase(HostPhase::Terminated, acquired) == HostPhase::Terminated,
        frame_actions(HostPhase::Terminated, state, acquired) == Seq::<HostAction>::empty(),
{
}

/// A close request moves the host from any phase to the terminal one, asking
/// at most for the event loop to stop.
pub proof fn lemma_close_request_terminates(phase: HostPhase, state: Option<GraphicsState>)
    ensures
        event_phase(phase, HostEvent::CloseRequested) == HostPhase::Terminated,
        phase != HostPhase::Terminated ==> event_actions(phase, state, HostEvent::CloseRequested)
            == seq![HostAction::Exit],
        phase == HostPhase::Terminated ==> event_actions(phase, state, HostEvent::CloseRequested)
            == Seq::<HostAction>::empty(),
{
}

/// Running out of memory while acquiring a frame stops the event loop and
/// terminates the host.
pub proof fn lemma_out_of_memory_terminates(state: GraphicsState)
    ensures
        frame_phase(HostPhase::Running, Err(SurfaceError::OutOfMemory)) == HostPhase::Terminated,
        frame_actions(HostPhase::Running, Some(state), Err(SurfaceError::OutOfMemory)) == seq![
            HostAction::Exit,
        ],
{
}

/// A lost surface is reconfigured exactly once, with the cached size, and the
/// host keeps running and asks for the next redraw.
pub proof fn lemma_surface_lost_reconfigures_once(state: GraphicsState)
    requires
        state.wf(),
        !state.size_view().is_degenerate(),
    ensures
        frame_phase(HostPhase::Running, Err(SurfaceError::Lost)) == HostPhase::Running,
        frame_actions(HostPhase::Running, Some(state), Err(SurfaceError::Lost)) == seq![
            HostAction::Reconfigure(state.config_view()),
            HostAction::RequestRedraw,
        ],
        state.config_view().width == state.size_view().width,
        state.config_view().height == state.size_view().height,
{
    assert(resized_config(state.config_view(), state.size_view()) == state.config_view());
}

/// A successfully acquired frame is drawn with exactly one submission and one
/// presentation, followed by a request for the next redraw.
pub proof fn lemma_drawn_frame_submits_and_presents_once(state: GraphicsState)
    ensures
        frame_actions(HostPhase::Running, Some(state), Ok(())) == seq![
            HostAction::Draw(FrameCommand::CreateView),
            HostAction::Draw(FrameCommand::BeginEncoder),
            HostAction::Draw(FrameCommand::ClearPass),
            HostAction::Draw(FrameCommand::Submit),
            HostAction::Draw(FrameCommand::Present),
            HostAction::RequestRedraw,
        ],
        count_of(
            frame_actions(HostPhase::Running, Some(state), Ok(())),
            HostAction::Draw(FrameCommand::Submit),
        ) == 1,
        count_of(
            frame_actions(HostPhase::Running, Some(state), Ok(())),
            HostAction::Draw(FrameCommand::Present),
        ) == 1,
{
    let a = frame_actions(HostPhase::Running, Some(state), Ok(()));
    assert(a =~= seq![
        HostAction::Draw(FrameCommand::CreateView),
        HostAction::Draw(FrameCommand::BeginEncoder),
        HostAction::Draw(FrameCommand::ClearPass),
        HostAction::Draw(FrameCommand::Submit),
        HostAction::Draw(FrameCommand::Present),
        HostAction::RequestRedraw,
    ]);
    reveal_with_fuel(count_of, 7);
    assert(a.drop_last() =~= seq![
        HostAction::Draw(FrameCommand::CreateView),
        HostAction::Draw(FrameCommand::BeginEncoder),
        HostAction::Draw(FrameCommand::ClearPass),
        HostAction::Draw(FrameCommand::Submit),
        HostAction::Draw(FrameCommand::Present),
    ]);
    assert(a.drop_last().drop_last() =~= seq![
        HostAction::Draw(FrameCommand::CreateView),
        HostAction::Draw(FrameCommand::BeginEncoder),
        HostAction::Draw(FrameCommand::ClearPass),
        HostAction::Draw(FrameCommand::Submit),
    ]);
    assert(a.drop_last().drop_last().drop_last() =~= seq![
        HostAction::Draw(FrameCommand::CreateView),
        HostAction::Draw(FrameCommand::BeginEncoder),
        HostAction::Draw(FrameCommand::ClearPass),
    ]);
    assert(a.drop_last().drop_last().drop_last().drop_last() =~= seq![
        HostAction::Draw(FrameCommand::CreateView),
        HostAction::Draw(FrameCommand::BeginEncoder),
    ]);
    assert(a.drop_last().drop_last().drop_last().drop_last().drop_last() =~= seq![
        HostAction::Draw(FrameCommand::CreateView),
    ]);
    assert(a.drop_last().drop_last().drop_last().drop_last().drop_last().drop_last()
        =~= Seq::<HostAction>::empty());
}

} // verus!
