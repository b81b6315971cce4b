//! The renderer: one context object that owns the state of the surface, the
//! pipeline, the mesh and the camera, and that runs the per-frame protocol
//! one step at a time.
//!
//! A draw cycle is a dialogue. The caller reports an event with
//! [`Renderer::draw`], carries out the action it gets back on the device,
//! and reports the outcome as the next event, until the action is
//! [`FrameAction::Finish`].

use vstd::prelude::*;
use crate::camera::{AspectRatio, CameraBinding};
use crate::mesh::{DrawCall, MeshLayout};
use crate::pipeline::{PipelineDescriptor, CAMERA_BIND_GROUP, VERTEX_BUFFER_SLOT};
use crate::startup::{
    is_preferred, preferred_format, select_surface_format, DeviceProbe, InitError,
};
use crate::surface::{
    AcquireError, AcquireOutcome, AlphaMode, PresentMode, PresentationSurface, Recovery,
    SurfaceConfig, SurfaceFormat, SurfaceSize,
};

verus! {

/// Where a draw cycle stands. In every phase the renderer waits for one
/// kind of event; see [`FramePhase::accepts`].
#[derive(Clone, Copy, Debug, PartialEq, Eq, Structural)]
pub enum FramePhase {
    /// No cycle is running.
    Idle,
    /// The configuration is being bound to the swap chain.
    SurfaceStale,
    /// The swap chain is current and a frame has been asked for.
    SurfaceReady,
    /// A frame is held and is being prepared for recording.
    FrameAcquired,
    /// The render pass is being recorded.
    RecordingPass,
    /// The command buffer has been handed to the queue.
    Submitted,
    /// The frame has been handed over for presentation.
    Presented,
}

/// What the caller reports to the renderer.
#[derive(Clone, Copy, Debug, PartialEq, Eq, Structural)]
pub enum FrameEvent {
    /// The window asks for a frame.
    DrawRequested,
    /// The configuration has been bound.
    Configured,
    /// The swap chain has answered the request for a frame.
    Acquired(AcquireOutcome),
    /// The frame's view exists and the uniform data is written.
    FramePrepared,
    /// The render pass is recorded.
    PassRecorded,
    /// The queue has taken the command buffer.
    Submitted,
    /// The frame is on its way to the display and the handle is gone.
    Presented,
}

/// A colour with channels in thousandths, so that 1000 is full intensity.
#[derive(Clone, Copy, Debug, PartialEq, Eq, Structural)]
pub struct ClearColor {
    pub red: u16,
    pub green: u16,
    pub blue: u16,
    pub alpha: u16,
}

/// The colour every frame is cleared to.
pub open spec fn background() -> ClearColor {
    ClearColor { red: 100, green: 200, blue: 300, alpha: 1000 }
}

/// The contents of the one render pass of a frame: clear the colour target,
/// bind the pipeline, the camera's bind group and the mesh's buffers, and
/// issue one draw call.
#[derive(Clone, Copy, Debug, PartialEq, Eq, Structural)]
pub struct PassPlan {
    pub clear: ClearColor,
    pub camera_group: u32,
    pub vertex_slot: u32,
    pub draw: DrawCall,
}

/// How a draw cycle ended.
#[derive(Clone, Copy, Debug, PartialEq, Eq, Structural)]
pub enum CycleResult {
    /// A frame was drawn and presented.
    Presented,
    /// No frame could be had; nothing was submitted.
    Skipped(AcquireError),
    /// The device is out of memory; rendering cannot go on.
    OutOfMemory,
}

/// What the caller has to do next.
#[derive(Clone, Copy, Debug, PartialEq, Eq, Structural)]
pub enum FrameAction {
    /// Bind this configuration to the swap chain.
    Configure(SurfaceConfig),
    /// Ask the swap chain for the next frame.
    Acquire,
    /// Create the frame's view; if `camera` is given, rebuild the
    /// view-projection matrix for that aspect ratio and write it to the
    /// uniform buffer.
    PrepareFrame { camera: Option<AspectRatio> },
    /// Record the render pass.
    RecordPass(PassPlan),
    /// Submit the recorded commands to the queue.
    Submit,
    /// Present the frame.
    Present,
    /// The cycle is over.
    Finish(CycleResult),
    /// The event was not expected in this phase; nothing has changed.
    Ignore,
}

impl FrameAction {
    /// The event that reports this action as carried out. `acquired` is
    /// what the swap chain answered; only `Acquire` looks at it. The two
    /// actions that ask for nothing have no answer.
    pub open spec fn answer(self, acquired: AcquireOutcome) -> Option<FrameEvent> {
        match self {
            FrameAction::Configure(_) => Some(FrameEvent::Configured),
            FrameAction::Acquire => Some(FrameEvent::Acquired(acquired)),
            FrameAction::PrepareFrame { .. } => Some(FrameEvent::FramePrepared),
            FrameAction::RecordPass(_) => Some(FrameEvent::PassRecorded),
            FrameAction::Submit => Some(FrameEvent::Submitted),
            FrameAction::Present => Some(FrameEvent::Presented),
            FrameAction::Finish(_) => None,
            FrameAction::Ignore => None,
        }
    }

    /// Names the event to report once this action has been carried out.
    pub fn completed(&self, acquired: AcquireOutcome) -> (event: Option<FrameEvent>)
        ensures
            event == self.answer(acquired),
    {
        match self {
            FrameAction::Configure(_) => Some(FrameEvent::Configured),
            FrameAction::Acquire => Some(FrameEvent::Acquired(acquired)),
            FrameAction::PrepareFrame { .. } => Some(FrameEvent::FramePrepared),
            FrameAction::RecordPass(_) => Some(FrameEvent::PassRecorded),
            FrameAction::Submit => Some(FrameEvent::Submitted),
            FrameAction::Present => Some(FrameEvent::Presented),
            FrameAction::Finish(_) => None,
            FrameAction::Ignore => None,
        }
    }
}

impl FramePhase {
    /// The events that a phase is waiting for.
    pub open spec fn accepts(self, event: FrameEvent) -> bool {
        match self {
            FramePhase::Idle => event is DrawRequested,
            FramePhase::SurfaceStale => event is Configured,
            FramePhase::SurfaceReady => event is Acquired,
            FramePhase::FrameAcquired => event is FramePrepared,
            FramePhase::RecordingPass => event is PassRecorded,
            FramePhase::Submitted => event is Submitted,
            FramePhase::Presented => event is Presented,
        }
    }

    /// Whether the caller holds a frame of the swap chain in this phase.
    pub open spec fn holds_frame(self) -> bool {
        self is FrameAcquired || self is RecordingPass || self is Submitted || self is Presented
    }
}

/// The state of the rendering host.
#[derive(Clone, Copy, Debug, PartialEq, Eq, Structural)]
pub struct Renderer {
    pub surface: PresentationSurface,
    pub pipeline: PipelineDescriptor,
    pub mesh: MeshLayout,
    pub camera: CameraBinding,
    pub phase: FramePhase,
    /// Whether this cycle has already reconfigured and retried after a
    /// failed acquisition.
    pub retried: bool,
}

impl Renderer {
    /// What holds of a renderer between any two calls.
    pub open spec fn wf(&self) -> bool {
        &&& self.surface.wf()
        &&& self.pipeline.wf()
        &&& self.camera.wf()
        &&& self.pipeline.color_target_format == self.surface.config.format
        &&& self.camera.aspect == AspectRatio::of(self.surface.config.size())
        &&& self.phase is Idle ==> !self.retried
        &&& !(self.phase is Idle) ==> self.surface.live is Some
        &&& self.phase.holds_frame() == self.surface.frame_held
        &&& self.phase.holds_frame() ==> self.camera.uploaded is Some
    }

    /// Tests the invariant at run time, for callers outside verified code.
    pub fn is_well_formed(&self) -> (b: bool)
        ensures
            b == self.wf(),
    {
        if !self.surface.is_well_formed() || !self.pipeline.is_well_formed()
            || !self.camera.is_well_formed() {
            return false;
        }
        if self.pipeline.color_target_format != self.surface.config.format {
            return false;
        }
        if self.camera.aspect.width != self.surface.config.width || self.camera.aspect.height
            != self.surface.config.height {
            return false;
        }
        let idle = self.phase == FramePhase::Idle;
        let holds_frame = self.phase == FramePhase::FrameAcquired || self.phase
            == FramePhase::RecordingPass || self.phase == FramePhase::Submitted || self.phase
            == FramePhase::Presented;
        if idle && self.retried {
            return false;
        }
        if !idle && self.surface.live.is_none() {
            return false;
        }
        if holds_frame != self.surface.frame_held {
            return false;
        }
        !(holds_frame && self.camera.uploaded.is_none())
    }

    /// The renderer that initialization hands out. The configuration
    /// counts as bound and the matrix as written for the window's aspect
    /// ratio: the caller does both once, when it creates the device's
    /// objects, so that the first draw asks for a frame at once.
    pub open spec fn initial(
        size: SurfaceSize,
        format: SurfaceFormat,
        alpha_mode: AlphaMode,
        cull_back_faces: bool,
    ) -> Renderer {
        let config = SurfaceConfig {
            format,
            width: size.width,
            height: size.height,
            present_mode: PresentMode::AutoVsync,
            alpha_mode,
        };
        Renderer {
            surface: PresentationSurface {
                config,
                needs_reconfigure: false,
                live: Some(config),
                frame_held: false,
            },
            pipeline: PipelineDescriptor::for_target(format, cull_back_faces),
            mesh: MeshLayout { vertex_count: 5, index_count: Some(9u32) },
            camera: CameraBinding {
                aspect: AspectRatio::of(size),
                stale: false,
                uploaded: Some(AspectRatio::of(size)),
            },
            phase: FramePhase::Idle,
            retried: false,
        }
    }

    /// The renderer after a resize to `size`.
    pub open spec fn resized(self, size: SurfaceSize) -> Renderer {
        Renderer {
            surface: self.surface.resized(size),
            camera: self.camera.retargeted(AspectRatio::of(size)),
            ..self
        }
    }

    /// The render pass of this renderer's frames.
    pub open spec fn pass_plan(self) -> PassPlan {
        PassPlan {
            clear: background(),
            camera_group: CAMERA_BIND_GROUP,
            vertex_slot: VERTEX_BUFFER_SLOT,
            draw: self.mesh.full_draw(),
        }
    }

    /// This renderer with no cycle running.
    pub open spec fn at_rest(self) -> Renderer {
        Renderer { phase: FramePhase::Idle, retried: false, ..self }
    }

    /// This renderer in another phase of the same cycle.
    pub open spec fn in_phase(self, phase: FramePhase) -> Renderer {
        Renderer { phase, ..self }
    }

    /// The per-frame protocol: the state after `event` and the action that
    /// answers it.
    pub open spec fn step(self, event: FrameEvent) -> (Renderer, FrameAction) {
        match (self.phase, event) {
            (FramePhase::Idle, FrameEvent::DrawRequested) => if self.surface.needs_reconfigure {
                (
                    Renderer {
                        surface: self.surface.configured(),
                        phase: FramePhase::SurfaceStale,
                        ..self
                    },
                    FrameAction::Configure(self.surface.config),
                )
            } else {
                (self.in_phase(FramePhase::SurfaceReady), FrameAction::Acquire)
            },
            (FramePhase::SurfaceStale, FrameEvent::Configured) => (
                self.in_phase(FramePhase::SurfaceReady),
                FrameAction::Acquire,
            ),
            (FramePhase::SurfaceReady, FrameEvent::Acquired(AcquireOutcome::Frame)) => (
                Renderer {
                    surface: self.surface.with_frame(true),
                    camera: self.camera.refreshed(),
                    phase: FramePhase::FrameAcquired,
                    ..self
                },
                FrameAction::PrepareFrame { camera: self.camera.pending() },
            ),
            (
                FramePhase::SurfaceReady,
                FrameEvent::Acquired(AcquireOutcome::Failed(error)),
            ) => match error.recovery(self.retried) {
                Recovery::SkipFrame => (
                    self.at_rest(),
                    FrameAction::Finish(CycleResult::Skipped(error)),
                ),
                Recovery::ReconfigureAndRetry => (
                    Renderer {
                        surface: self.surface.configured(),
                        phase: FramePhase::SurfaceStale,
                        retried: true,
                        ..self
                    },
                    FrameAction::Configure(self.surface.config),
                ),
                Recovery::Fatal => (
                    self.at_rest(),
                    FrameAction::Finish(CycleResult::OutOfMemory),
                ),
            },
            (FramePhase::FrameAcquired, FrameEvent::FramePrepared) => (
                self.in_phase(FramePhase::RecordingPass),
                FrameAction::RecordPass(self.pass_plan()),
            ),
            (FramePhase::RecordingPass, FrameEvent::PassRecorded) => (
                self.in_phase(FramePhase::Submitted),
                FrameAction::Submit,
            ),
            (FramePhase::Submitted, FrameEvent::Submitted) => (
                self.in_phase(FramePhase::Presented),
                FrameAction::Present,
            ),
            (FramePhase::Presented, FrameEvent::Presented) => (
                Renderer { surface: self.surface.with_frame(false), ..self.at_rest() },
                FrameAction::Finish(CycleResult::Presented),
            ),
            _ => (self, FrameAction::Ignore),
        }
    }

    /// What initialization yields: the failure that the probe stands for,
    /// or the initial renderer for the preferred format and the adapter's
    /// first alpha mode, with its configuration bound.
    pub open spec fn startup(size: SurfaceSize, probe: DeviceProbe, cull_back_faces: bool) -> Result<
        Renderer,
        InitError,
    > {
        match probe.failure() {
            Some(error) => Err(error),
            None => Ok(
                Renderer::initial(
                    size,
                    preferred_format(probe->Ready_0.formats@)->Some_0,
                    probe->Ready_0.alpha_modes@[0],
                    cull_back_faces,
                ),
            ),
        }
    }

    /// Sets up the renderer's state from the window's extent and the
    /// outcome of probing the device. Fails exactly when the probe stands
    /// for a failure, and with that failure. Back faces are culled unless
    /// `cull_back_faces` is switched off.
    ///
    /// The configuration of the renderer that comes back is the one to
    /// bind to the swap chain, once, now that the device exists; the
    /// uniform buffer is to be created with the matrix for the camera's
    /// aspect ratio. The renderer counts both as done.
    pub fn initialize(size: SurfaceSize, probe: &DeviceProbe, cull_back_faces: bool) -> (r: Result<
        Renderer,
        InitError,
    >)
        requires
            size.wf(),
        ensures
            r == Renderer::startup(size, *probe, cull_back_faces),
            r matches Ok(renderer) ==> renderer.wf() && is_preferred(
                probe->Ready_0.formats@,
                renderer.surface.config.format,
            ),
    {
        match probe {
            DeviceProbe::AdapterMissing => Err(InitError::NoAdapter),
            DeviceProbe::DeviceRefused => Err(InitError::NoDevice),
            DeviceProbe::ShaderRejected => Err(InitError::ShaderRejected),
            DeviceProbe::Ready(caps) => {
                if caps.alpha_modes.len() == 0 {
                    return Err(InitError::UnsupportedSurface);
                }
                match select_surface_format(&caps.formats) {
                    None => Err(InitError::UnsupportedSurface),
                    Some(format) => {
                        let config = SurfaceConfig {
                            format,
                            width: size.width,
                            height: size.height,
                            present_mode: PresentMode::AutoVsync,
                            alpha_mode: caps.alpha_modes[0],
                        };
                        let mut surface = PresentationSurface::new(config);
                        surface.configure();
                        let mut camera = CameraBinding::new(AspectRatio::from_size(size));
                        camera.refresh();
                        Ok(
                            Renderer {
                                surface,
                                pipeline: PipelineDescriptor::build(format, cull_back_faces),
                                mesh: MeshLayout::pentagon(),
                                camera,
                                phase: FramePhase::Idle,
                                retried: false,
                            },
                        )
                    },
                }
            },
        }
    }

    /// Records the window's new extent. Nothing is bound or written now:
    /// the surface and the camera are marked, and the next draw cycle
    /// brings both up to date before it records a pass.
    pub fn resize_surface(&mut self, size: SurfaceSize)
        requires
            old(self).wf(),
            size.wf(),
        ensures
            *final(self) == old(self).resized(size),
            final(self).wf(),
    {
        self.surface.resize(size);
        self.camera.set_aspect(AspectRatio::from_size(size));
    }

    /// Takes one step of the draw cycle: consumes the event that the caller
    /// reports and answers with the action to carry out next.
    pub fn draw(&mut self, event: FrameEvent) -> (action: FrameAction)
        requires
            old(self).wf(),
        ensures
            (*final(self), action) == old(self).step(event),
            final(self).wf(),
    {
        match (self.phase, event) {
            (FramePhase::Idle, FrameEvent::DrawRequested) => {
                if self.surface.needs_reconfigure {
                    let config = self.surface.configure();
                    self.phase = FramePhase::SurfaceStale;
                    FrameAction::Configure(config)
                } else {
                    self.phase = FramePhase::SurfaceReady;
                    FrameAction::Acquire
                }
            },
            (FramePhase::SurfaceStale, FrameEvent::Configured) => {
                self.phase = FramePhase::SurfaceReady;
                FrameAction::Acquire
            },
            (FramePhase::SurfaceReady, FrameEvent::Acquired(AcquireOutcome::Frame)) => {
                self.surface.frame_acquired();
                let camera = self.camera.refresh();
                self.phase = FramePhase::FrameAcquired;
                FrameAction::PrepareFrame { camera }
            },
            (FramePhase::SurfaceReady, FrameEvent::Acquired(AcquireOutcome::Failed(error))) => {
                match error.recover(self.retried) {
                    Recovery::SkipFrame => {
                        self.phase = FramePhase::Idle;
                        self.retried = false;
                        FrameAction::Finish(CycleResult::Skipped(error))
                    },
                    Recovery::ReconfigureAndRetry => {
                        let config = self.surface.configure();
                        self.phase = FramePhase::SurfaceStale;
                        self.retried = true;
                        FrameAction::Configure(config)
                    },
                    Recovery::Fatal => {
                        self.phase = FramePhase::Idle;
                        self.retried = false;
                        FrameAction::Finish(CycleResult::OutOfMemory)
                    },
                }
            },
            (FramePhase::FrameAcquired, FrameEvent::FramePrepared) => {
                self.phase = FramePhase::RecordingPass;
                FrameAction::RecordPass(self.plan_pass())
            },
            (FramePhase::RecordingPass, FrameEvent::PassRecorded) => {
                self.phase = FramePhase::Submitted;
                FrameAction::Submit
            },
            (FramePhase::Submitted, FrameEvent::Submitted) => {
                self.phase = FramePhase::Presented;
                FrameAction::Present
            },
            (FramePhase::Presented, FrameEvent::Presented) => {
                self.surface.frame_presented();
                self.phase = FramePhase::Idle;
                self.retried = false;
                FrameAction::Finish(CycleResult::Presented)
            },
            _ => FrameAction::Ignore,
        }
    }

    /// Lays out the render pass for this renderer's mesh.
    pub fn plan_pass(&self) -> (plan: PassPlan)
        ensures
            plan == self.pass_plan(),
    {
        PassPlan {
            clear: ClearColor { red: 100, green: 200, blue: 300, alpha: 1000 },
            camera_group: CAMERA_BIND_GROUP,
            vertex_slot: VERTEX_BUFFER_SLOT,
            draw: self.mesh.draw_call(),
        }
    }
}

} // verus!
