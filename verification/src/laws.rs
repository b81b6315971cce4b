//! What holds of the renderer over whole sequences of resizes and events.

use vstd::prelude::*;
use crate::camera::AspectRatio;
use crate::host::{App, FatalError, HostCommand, WindowEvent};
use crate::renderer::{CycleResult, FrameAction, FrameEvent, FramePhase, Renderer};
use crate::startup::DeviceProbe;
use crate::surface::{AcquireError, AcquireOutcome, AlphaMode, SurfaceFormat, SurfaceSize};

verus! {

impl Renderer {
    /// The renderer after the resizes of `sizes`, in their order.
    pub open spec fn resized_all(self, sizes: Seq<SurfaceSize>) -> Renderer
        decreases sizes.len(),
    {
        if sizes.len() == 0 {
            self
        } else {
            self.resized_all(sizes.drop_last()).resized(sizes.last())
        }
    }

    /// The renderer after the events of `events`, in their order.
    pub open spec fn run(self, events: Seq<FrameEvent>) -> Renderer
        decreases events.len(),
    {
        if events.len() == 0 {
            self
        } else {
            self.run(events.drop_last()).step(events.last()).0
        }
    }

    /// The actions that answer the events of `events`, one for each.
    pub open spec fn answers(self, events: Seq<FrameEvent>) -> Seq<FrameAction>
        decreases events.len(),
    {
        if events.len() == 0 {
            Seq::empty()
        } else {
            self.answers(events.drop_last()).push(
                self.run(events.drop_last()).step(events.last()).1,
            )
        }
    }

    /// The renderer after the first `count` events of `events`.
    pub open spec fn after_first(self, events: Seq<FrameEvent>, count: int) -> Renderer
        decreases count,
    {
        if count <= 0 {
            self
        } else {
            self.after_first(events, count - 1).step(events[count - 1]).0
        }
    }

    /// A bound on the number of events that the running cycle still takes.
    pub open spec fn steps_left(self) -> nat {
        match self.phase {
            FramePhase::Idle => 0,
            FramePhase::SurfaceStale => if self.retried {
                6
            } else {
                8
            },
            FramePhase::SurfaceReady => if self.retried {
                5
            } else {
                7
            },
            FramePhase::FrameAcquired => 4,
            FramePhase::RecordingPass => 3,
            FramePhase::Submitted => 2,
            FramePhase::Presented => 1,
        }
    }

    /// Whether a running cycle works on the current state: the
    /// configuration handed out last for binding is the wanted one, and
    /// once a frame is held the matrix was last asked to be written for
    /// the current aspect ratio.
    pub open spec fn up_to_date(self) -> bool {
        &&& !(self.phase is Idle) ==> self.surface.live == Some(self.surface.config)
        &&& self.phase.holds_frame() ==> self.camera.uploaded == Some(self.camera.aspect)
    }
}

impl App {
    /// The application after the window events of `events`, in their order.
    pub open spec fn after_window_events(self, events: Seq<WindowEvent>) -> App
        decreases events.len(),
    {
        if events.len() == 0 {
            self
        } else {
            self.after_window_events(events.drop_last()).after_window_event(events.last()).0
        }
    }
}

/// The events of a cycle that configures, gets its frame at once, and
/// presents.
pub open spec fn configuring_cycle() -> Seq<FrameEvent> {
    seq![
        FrameEvent::DrawRequested,
        FrameEvent::Configured,
        FrameEvent::Acquired(AcquireOutcome::Frame),
        FrameEvent::FramePrepared,
        FrameEvent::PassRecorded,
        FrameEvent::Submitted,
        FrameEvent::Presented,
    ]
}

/// The events that follow a first failed acquisition in a cycle that then
/// gets its frame.
pub open spec fn retrying_cycle(first: AcquireError) -> Seq<FrameEvent> {
    seq![
        FrameEvent::Acquired(AcquireOutcome::Failed(first)),
        FrameEvent::Configured,
        FrameEvent::Acquired(AcquireOutcome::Frame),
        FrameEvent::FramePrepared,
        FrameEvent::PassRecorded,
        FrameEvent::Submitted,
        FrameEvent::Presented,
    ]
}

/// The events that follow a first failed acquisition in a cycle whose
/// second acquisition fails too.
pub open spec fn failing_cycle(first: AcquireError, second: AcquireError) -> Seq<FrameEvent> {
    seq![
        FrameEvent::Acquired(AcquireOutcome::Failed(first)),
        FrameEvent::Configured,
        FrameEvent::Acquired(AcquireOutcome::Failed(second)),
    ]
}

/// The first events of a sequence lead to the same state whether or not
/// the last event is there.
proof fn the_last_event_comes_last(r: Renderer, events: Seq<FrameEvent>, count: int)
    requires
        0 <= count < events.len(),
    ensures
        r.after_first(events.drop_last(), count) == r.after_first(events, count),
    decreases count,
{
    if count > 0 {
        the_last_event_comes_last(r, events, count - 1);
    }
}

/// A run goes step by step: its end is the state after all its events, and
/// each answer is the one that the state before its event gives.
pub proof fn a_run_goes_step_by_step(r: Renderer, events: Seq<FrameEvent>)
    ensures
        r.run(events) == r.after_first(events, events.len() as int),
        r.answers(events).len() == events.len(),
        forall|i: int|
            0 <= i < events.len() ==> #[trigger] r.answers(events)[i] == r.after_first(
                events,
                i,
            ).step(events[i]).1,
    decreases events.len(),
{
    if events.len() > 0 {
        let before = events.drop_last();
        a_run_goes_step_by_step(r, before);
        the_last_event_comes_last(r, events, events.len() - 1);
        assert forall|i: int| 0 <= i < events.len() implies #[trigger] r.answers(events)[i]
            == r.after_first(events, i).step(events[i]).1 by {
            if i < before.len() {
                the_last_event_comes_last(r, events, i);
            }
        }
    }
}

/// No step breaks the renderer's invariant.
pub proof fn step_keeps_wf(r: Renderer, event: FrameEvent)
    requires
        r.wf(),
    ensures
        r.step(event).0.wf(),
{
}

/// No sequence of events breaks the renderer's invariant.
pub proof fn run_keeps_wf(r: Renderer, events: Seq<FrameEvent>)
    requires
        r.wf(),
    ensures
        r.run(events).wf(),
    decreases events.len(),
{
    if events.len() > 0 {
        run_keeps_wf(r, events.drop_last());
        step_keeps_wf(r.run(events.drop_last()), events.last());
    }
}

/// Resizes keep the invariant, touch nothing but the extent, the aspect
/// ratio and the two marks, and only the last of them counts.
pub proof fn resizes_keep_wf(r: Renderer, sizes: Seq<SurfaceSize>)
    requires
        r.wf(),
        forall|i: int| 0 <= i < sizes.len() ==> (#[trigger] sizes[i]).wf(),
    ensures
        r.resized_all(sizes).wf(),
        sizes.len() > 0 ==> r.resized_all(sizes) == r.resized(sizes.last()),
    decreases sizes.len(),
{
    if sizes.len() > 0 {
        resizes_keep_wf(r, sizes.drop_last());
    }
}

/// An event that the phase does not wait for changes nothing and is
/// answered with `Ignore`; every other event is answered with something
/// to do.
pub proof fn unexpected_events_are_ignored(r: Renderer, event: FrameEvent)
    ensures
        !r.phase.accepts(event) ==> r.step(event) == (r, FrameAction::Ignore),
        r.phase.accepts(event) ==> !(r.step(event).1 is Ignore),
{
}

/// Every expected event brings the end of the cycle nearer, so that no
/// cycle takes more than nine events, and a cycle ends exactly when the
/// answer is `Finish`.
pub proof fn cycles_end(r: Renderer, event: FrameEvent)
    requires
        r.wf(),
        r.phase.accepts(event),
    ensures
        r.steps_left() <= 8,
        !(r.phase is Idle) ==> r.step(event).0.steps_left() < r.steps_left(),
        r.step(event).1 is Finish <==> r.step(event).0.phase is Idle,
{
}

/// The dialogue never gets stuck: the phase that follows an action waits
/// for exactly the event that reports the action as carried out, and only
/// the end of a cycle has no action to carry out.
pub proof fn every_action_has_its_answer(r: Renderer, event: FrameEvent, acquired: AcquireOutcome)
    requires
        r.wf(),
        r.phase.accepts(event),
    ensures
        match r.step(event).1.answer(acquired) {
            Some(next) => r.step(event).0.phase.accepts(next) && !(r.step(event).0.phase is Idle),
            None => r.step(event).0.phase is Idle && r.step(event).1 is Finish,
        },
{
}

/// A cycle reconfigures after a failed acquisition at most once: once it
/// has retried, no answer is `Configure`, and the mark stays until the
/// cycle is over.
pub proof fn a_cycle_retries_once(r: Renderer, event: FrameEvent)
    requires
        r.wf(),
        r.retried,
    ensures
        !(r.step(event).1 is Configure),
        r.step(event).0.retried || r.step(event).0.phase is Idle,
{
}

/// Failures keep their kind. A timeout skips the frame without a retry;
/// running out of memory is reported as such, whether or not the cycle has
/// retried; a cycle is given up only while no frame is held, so that
/// nothing is submitted in part; and the configuration is never bound
/// while a frame is held, so that no held frame is invalidated.
pub proof fn failures_keep_their_kind(r: Renderer, event: FrameEvent)
    requires
        r.wf(),
    ensures
        r.phase is SurfaceReady ==> r.step(
            FrameEvent::Acquired(AcquireOutcome::Failed(AcquireError::Timeout)),
        ) == (r.at_rest(), FrameAction::Finish(CycleResult::Skipped(AcquireError::Timeout))),
        r.step(event).1 == FrameAction::Finish(CycleResult::OutOfMemory) <==> r.phase
            is SurfaceReady && event == FrameEvent::Acquired(
            AcquireOutcome::Failed(AcquireError::OutOfMemory),
        ),
        r.step(event).1 matches FrameAction::Finish(CycleResult::Skipped(error)) ==> {
            &&& r.phase is SurfaceReady
            &&& event == FrameEvent::Acquired(AcquireOutcome::Failed(error))
            &&& error != AcquireError::OutOfMemory
        },
        r.step(event).1 is Submit ==> r.phase is RecordingPass,
        r.step(event).1 is Configure ==> !r.surface.frame_held && !r.step(
            event,
        ).0.surface.frame_held,
{
}

/// A running cycle that is up to date stays so, whatever comes.
pub proof fn step_keeps_up_to_date(r: Renderer, event: FrameEvent)
    requires
        r.wf(),
        r.up_to_date(),
    ensures
        r.step(event).0.up_to_date(),
        r.step(event).0.surface.config == r.surface.config,
        r.step(event).0.camera.aspect == r.camera.aspect,
{
}

/// However many resizes came before a draw and whatever the swap chain
/// answers, a frame is only ever held, recorded and presented after the
/// renderer has handed out the configuration for the last extent and has
/// asked for the matrix to be rebuilt for the last aspect ratio. Nothing
/// older is left for a render pass to read.
pub proof fn frames_see_the_last_resize(
    r: Renderer,
    sizes: Seq<SurfaceSize>,
    events: Seq<FrameEvent>,
)
    requires
        r.wf(),
        r.phase is Idle,
        forall|i: int| 0 <= i < sizes.len() ==> (#[trigger] sizes[i]).wf(),
    ensures
        ({
            let end = r.resized_all(sizes).run(events);
            &&& end.wf()
            &&& end.up_to_date()
            &&& end.surface.config == r.resized_all(sizes).surface.config
            &&& sizes.len() > 0 ==> end.surface.config.size() == sizes.last()
            &&& end.phase.holds_frame() ==> {
                &&& end.surface.live == Some(end.surface.config)
                &&& end.camera.uploaded == Some(AspectRatio::of(end.surface.config.size()))
            }
        }),
    decreases events.len(),
{
    resizes_keep_wf(r, sizes);
    let start = r.resized_all(sizes);
    if events.len() > 0 {
        frames_see_the_last_resize(r, sizes, events.drop_last());
        step_keeps_up_to_date(start.run(events.drop_last()), events.last());
        step_keeps_wf(start.run(events.drop_last()), events.last());
    }
}

/// A cycle that starts with the surface and the camera marked, and that
/// gets its frame at once, binds the configuration exactly once and
/// rebuilds the matrix before the pass is recorded.
pub proof fn a_marked_renderer_is_configured_once(r: Renderer)
    requires
        r.wf(),
        r.phase is Idle,
        r.surface.needs_reconfigure,
        r.camera.stale,
    ensures
        ({
            let actions = r.answers(configuring_cycle());
            let end = r.run(configuring_cycle());
            &&& actions == seq![
                FrameAction::Configure(r.surface.config),
                FrameAction::Acquire,
                FrameAction::PrepareFrame { camera: Some(r.camera.aspect) },
                FrameAction::RecordPass(r.pass_plan()),
                FrameAction::Submit,
                FrameAction::Present,
                FrameAction::Finish(CycleResult::Presented),
            ]
            &&& forall|i: int| 0 <= i < actions.len() ==> (actions[i] is Configure <==> i == 0)
            &&& end.phase is Idle
            &&& end.surface.live == Some(r.surface.config)
            &&& !end.surface.needs_reconfigure
            &&& end.camera.uploaded == Some(r.camera.aspect)
        }),
{
    let events = configuring_cycle();
    a_run_goes_step_by_step(r, events);
    assert(r.after_first(events, 0) == r);
    let stale = r.step(events[0]).0;
    assert(r.after_first(events, 1) == stale);
    let ready = stale.step(events[1]).0;
    assert(r.after_first(events, 2) == ready);
    let acquired = ready.step(events[2]).0;
    assert(r.after_first(events, 3) == acquired);
    let recording = acquired.step(events[3]).0;
    assert(r.after_first(events, 4) == recording);
    let submitted = recording.step(events[4]).0;
    assert(r.after_first(events, 5) == submitted);
    let presented = submitted.step(events[5]).0;
    assert(r.after_first(events, 6) == presented);
    assert(r.after_first(events, 7) == presented.step(events[6]).0);
    assert(r.answers(events) =~= seq![
        FrameAction::Configure(r.surface.config),
        FrameAction::Acquire,
        FrameAction::PrepareFrame { camera: Some(r.camera.aspect) },
        FrameAction::RecordPass(r.pass_plan()),
        FrameAction::Submit,
        FrameAction::Present,
        FrameAction::Finish(CycleResult::Presented),
    ]);
}

/// After any burst of resizes, the next cycle that gets its frame at once
/// binds the configuration exactly once, for the last extent, and rebuilds
/// the matrix for the last aspect ratio before the pass is recorded.
pub proof fn a_resize_burst_is_configured_once(r: Renderer, sizes: Seq<SurfaceSize>)
    requires
        r.wf(),
        r.phase is Idle,
        sizes.len() > 0,
        forall|i: int| 0 <= i < sizes.len() ==> (#[trigger] sizes[i]).wf(),
    ensures
        ({
            let start = r.resized_all(sizes);
            let config = r.surface.config.with_size(sizes.last());
            let actions = start.answers(configuring_cycle());
            let end = start.run(configuring_cycle());
            &&& actions == seq![
                FrameAction::Configure(config),
                FrameAction::Acquire,
                FrameAction::PrepareFrame { camera: Some(AspectRatio::of(sizes.last())) },
                FrameAction::RecordPass(r.pass_plan()),
                FrameAction::Submit,
                FrameAction::Present,
                FrameAction::Finish(CycleResult::Presented),
            ]
            &&& forall|i: int| 0 <= i < actions.len() ==> (actions[i] is Configure <==> i == 0)
            &&& end.phase is Idle
            &&& end.surface.live == Some(config)
            &&& !end.surface.needs_reconfigure
            &&& end.camera.uploaded == Some(AspectRatio::of(sizes.last()))
        }),
{
    resizes_keep_wf(r, sizes);
    a_marked_renderer_is_configured_once(r.resized_all(sizes));
}

/// A renderer that has just been initialized counts its configuration as
/// bound and its matrix as written, so that its first cycle asks for a
/// frame at once and writes nothing.
pub proof fn a_fresh_renderer_is_up_to_date(
    size: SurfaceSize,
    format: SurfaceFormat,
    alpha_mode: AlphaMode,
    cull_back_faces: bool,
)
    requires
        size.wf(),
    ensures
        ({
            let r = Renderer::initial(size, format, alpha_mode, cull_back_faces);
            &&& r.wf()
            &&& r.phase is Idle
            &&& !r.surface.needs_reconfigure
            &&& r.surface.live == Some(r.surface.config)
            &&& r.surface.config.size() == size
            &&& r.camera.uploaded == Some(AspectRatio::of(size))
            &&& r.step(FrameEvent::DrawRequested) == (
                r.in_phase(FramePhase::SurfaceReady),
                FrameAction::Acquire,
            )
        }),
{
}

/// A cycle with nothing to bring up to date (no resize since the last
/// cycle) asks for a frame at once and writes nothing.
pub proof fn a_quiet_cycle_configures_nothing(r: Renderer)
    requires
        r.wf(),
        r.phase is Idle,
        !r.surface.needs_reconfigure,
        !r.camera.stale,
    ensures
        r.step(FrameEvent::DrawRequested) == (
            r.in_phase(FramePhase::SurfaceReady),
            FrameAction::Acquire,
        ),
        r.in_phase(FramePhase::SurfaceReady).step(FrameEvent::Acquired(AcquireOutcome::Frame)) == (
            Renderer { surface: r.surface.with_frame(true), ..r.in_phase(FramePhase::FrameAcquired) },
            FrameAction::PrepareFrame { camera: None },
        ),
{
}

/// A first acquisition that finds the surface outdated or lost is answered
/// by binding the configuration again; if the second acquisition yields a
/// frame, the frame is drawn and presented.
pub proof fn one_failure_is_retried(r: Renderer, first: AcquireError)
    requires
        r.wf(),
        r.phase is SurfaceReady,
        !r.retried,
        first == AcquireError::Outdated || first == AcquireError::Lost,
    ensures
        ({
            let actions = r.answers(retrying_cycle(first));
            let end = r.run(retrying_cycle(first));
            &&& actions.len() == 7
            &&& actions[0] == FrameAction::Configure(r.surface.config)
            &&& actions[1] == FrameAction::Acquire
            &&& actions[2] is PrepareFrame
            &&& actions[3] == FrameAction::RecordPass(r.pass_plan())
            &&& actions[4] == FrameAction::Submit
            &&& actions[5] == FrameAction::Present
            &&& actions[6] == FrameAction::Finish(CycleResult::Presented)
            &&& end.phase is Idle
            &&& end.surface.live == Some(r.surface.config)
        }),
{
    let events = retrying_cycle(first);
    a_run_goes_step_by_step(r, events);
    reveal_with_fuel(Renderer::after_first, 8);
}

/// If the second acquisition fails too, the cycle is over: it is skipped
/// without a third attempt, or reported as fatal if memory ran out.
pub proof fn two_failures_end_the_cycle(r: Renderer, first: AcquireError, second: AcquireError)
    requires
        r.wf(),
        r.phase is SurfaceReady,
        !r.retried,
        first == AcquireError::Outdated || first == AcquireError::Lost,
    ensures
        ({
            let actions = r.answers(failing_cycle(first, second));
            let end = r.run(failing_cycle(first, second));
            &&& actions == seq![
                FrameAction::Configure(r.surface.config),
                FrameAction::Acquire,
                FrameAction::Finish(
                    if second == AcquireError::OutOfMemory {
                        CycleResult::OutOfMemory
                    } else {
                        CycleResult::Skipped(second)
                    },
                ),
            ]
            &&& end.phase is Idle
            &&& !end.retried
        }),
{
    let events = failing_cycle(first, second);
    a_run_goes_step_by_step(r, events);
    reveal_with_fuel(Renderer::after_first, 4);
    assert(r.answers(events) =~= seq![
        FrameAction::Configure(r.surface.config),
        FrameAction::Acquire,
        FrameAction::Finish(
            if second == AcquireError::OutOfMemory {
                CycleResult::OutOfMemory
            } else {
                CycleResult::Skipped(second)
            },
        ),
    ]);
}

/// The pipeline and the mesh are built once: no resize and no event changes
/// them, nor the format, the present mode or the alpha mode of the
/// surface. Only the extent of the configuration ever changes.
pub proof fn nothing_is_rebuilt(r: Renderer, sizes: Seq<SurfaceSize>, events: Seq<FrameEvent>)
    ensures
        ({
            let end = r.resized_all(sizes).run(events);
            &&& end.pipeline == r.pipeline
            &&& end.mesh == r.mesh
            &&& end.surface.config == r.surface.config.with_size(end.surface.config.size())
        }),
    decreases events.len(), sizes.len(),
{
    if events.len() > 0 {
        nothing_is_rebuilt(r, sizes, events.drop_last());
    } else if sizes.len() > 0 {
        nothing_is_rebuilt(r, sizes.drop_last(), events);
    }
}

/// What a run of resize events leaves of a running application: the
/// renderer resized to the last extent that was not empty, or untouched if
/// every extent was empty.
proof fn resize_events_fold(r: Renderer, events: Seq<WindowEvent>) -> (size: Option<SurfaceSize>)
    requires
        forall|i: int| 0 <= i < events.len() ==> (#[trigger] events[i]) is Resized,
    ensures
        App::Main(r).after_window_events(events) == App::Main(
            match size {
                Some(s) => r.resized(s),
                None => r,
            },
        ),
        size matches Some(s) ==> s.wf(),
        events.len() > 0 && events.last()->width > 0 && events.last()->height > 0 ==> size == Some(
            SurfaceSize { width: events.last()->width, height: events.last()->height },
        ),
    decreases events.len(),
{
    if events.len() == 0 {
        None
    } else {
        let before = resize_events_fold(r, events.drop_last());
        let last = events.last();
        assert(last is Resized);
        if last->width > 0 && last->height > 0 {
            Some(SurfaceSize { width: last->width, height: last->height })
        } else {
            before
        }
    }
}

/// Of any burst of resize events only the last counts: if its extent is
/// not empty, the application is left exactly as if that one resize had
/// arrived alone, with the surface and the camera marked once.
pub proof fn only_the_last_resize_counts(r: Renderer, events: Seq<WindowEvent>)
    requires
        r.wf(),
        events.len() > 0,
        forall|i: int| 0 <= i < events.len() ==> (#[trigger] events[i]) is Resized,
        events.last()->width > 0,
        events.last()->height > 0,
    ensures
        ({
            let size = SurfaceSize { width: events.last()->width, height: events.last()->height };
            &&& App::Main(r).after_window_events(events) == App::Main(r.resized(size))
            &&& r.resized(size).wf()
            &&& r.resized(size).surface.needs_reconfigure
            &&& r.resized(size).surface.config.size() == size
        }),
{
    let size = resize_events_fold(r, events);
}

/// An application whose initialization failed is stopped with that
/// failure and asks to leave the event loop; and an application that is
/// not rendering, for this or any other reason, never asks for a draw,
/// never takes a step of a draw cycle, and stays as it is.
pub proof fn a_stopped_application_never_draws(
    app: App,
    size: SurfaceSize,
    probe: DeviceProbe,
    cull_back_faces: bool,
    window_event: WindowEvent,
    frame_event: FrameEvent,
)
    ensures
        probe.failure() matches Some(error) ==> App::Init.after_resume(
            size,
            probe,
            cull_back_faces,
        ) == (App::Failed(FatalError::Initialization(error)), HostCommand::Exit),
        !(app is Main) ==> {
            &&& app.after_window_event(window_event).0 == app
            &&& app.after_window_event(window_event).1 != HostCommand::Draw
            &&& app.after_window_event(window_event).1 != HostCommand::RequestRedraw
            &&& app.after_frame_event(frame_event) == (app, FrameAction::Ignore)
            &&& app.idle_command() == HostCommand::Nothing
            &&& !(app is Init) ==> app.after_resume(size, probe, cull_back_faces).0 == app
        },
{
}

} // verus!
