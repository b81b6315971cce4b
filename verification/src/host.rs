//! The application around the renderer: what it does when the window
//! system resumes it, sends it an event, or is about to wait.

use vstd::prelude::*;
use crate::renderer::{CycleResult, FrameAction, FrameEvent, Renderer};
use crate::startup::{is_preferred, DeviceProbe, InitError};
use crate::surface::SurfaceSize;

verus! {

/// What the window system tells the application.
#[derive(Clone, Copy, Debug, PartialEq, Eq, Structural)]
pub enum WindowEvent {
    CloseRequested,
    Resized { width: u32, height: u32 },
    RedrawRequested,
    /// Any event the application has no use for.
    Other,
}

/// What the application asks of the window system in return.
#[derive(Clone, Copy, Debug, PartialEq, Eq, Structural)]
pub enum HostCommand {
    /// Leave the event loop.
    Exit,
    /// Ask the window for a redraw.
    RequestRedraw,
    /// Run a draw cycle.
    Draw,
    /// Nothing to do.
    Nothing,
}

/// A failure that ends the application.
#[derive(Clone, Copy, Debug, PartialEq, Eq, Structural)]
pub enum FatalError {
    Initialization(InitError),
    DeviceOutOfMemory,
}

impl CycleResult {
    /// What the end of a draw cycle asks of the window system: the next
    /// redraw after a presented frame, nothing after a skipped one, and the
    /// end of the event loop when the device is out of memory.
    pub open spec fn follow_up(self) -> HostCommand {
        match self {
            CycleResult::Presented => HostCommand::RequestRedraw,
            CycleResult::Skipped(_) => HostCommand::Nothing,
            CycleResult::OutOfMemory => HostCommand::Exit,
        }
    }

    /// Says what to ask of the window system after a draw cycle.
    pub fn command(self) -> (command: HostCommand)
        ensures
            command == self.follow_up(),
    {
        match self {
            CycleResult::Presented => HostCommand::RequestRedraw,
            CycleResult::Skipped(_) => HostCommand::Nothing,
            CycleResult::OutOfMemory => HostCommand::Exit,
        }
    }
}

/// The application's state.
#[derive(Clone, Copy, Debug, PartialEq, Eq, Structural)]
pub enum App {
    /// Not resumed yet: there is no window and no renderer.
    Init,
    /// Initialized and rendering.
    Main(Renderer),
    /// Stopped by a fatal error; no frame is drawn any more.
    Failed(FatalError),
}

impl App {
    pub open spec fn wf(&self) -> bool {
        self matches App::Main(renderer) ==> renderer.wf()
    }

    /// The state and the command after the window system has resumed the
    /// application, given the window's extent and the outcome of probing
    /// the device. Only the first resume initializes.
    pub open spec fn after_resume(
        self,
        size: SurfaceSize,
        probe: DeviceProbe,
        cull_back_faces: bool,
    ) -> (App, HostCommand) {
        match self {
            App::Init => match Renderer::startup(size, probe, cull_back_faces) {
                Ok(renderer) => (App::Main(renderer), HostCommand::Nothing),
                Err(error) => (App::Failed(FatalError::Initialization(error)), HostCommand::Exit),
            },
            _ => (self, HostCommand::Nothing),
        }
    }

    /// The state and the command after a window event.
    pub open spec fn after_window_event(self, event: WindowEvent) -> (App, HostCommand) {
        match event {
            WindowEvent::CloseRequested => (self, HostCommand::Exit),
            WindowEvent::Resized { width, height } => match self {
                App::Main(renderer) => if width > 0 && height > 0 {
                    (
                        App::Main(renderer.resized(SurfaceSize { width, height })),
                        HostCommand::RequestRedraw,
                    )
                } else {
                    (self, HostCommand::Nothing)
                },
                _ => (self, HostCommand::Nothing),
            },
            WindowEvent::RedrawRequested => match self {
                App::Main(_) => (self, HostCommand::Draw),
                _ => (self, HostCommand::Nothing),
            },
            WindowEvent::Other => (self, HostCommand::Nothing),
        }
    }

    /// The state and the action after one step of a draw cycle. Running
    /// out of device memory stops the application.
    pub open spec fn after_frame_event(self, event: FrameEvent) -> (App, FrameAction) {
        match self {
            App::Main(renderer) => {
                let (next, action) = renderer.step(event);
                if action == FrameAction::Finish(CycleResult::OutOfMemory) {
                    (App::Failed(FatalError::DeviceOutOfMemory), action)
                } else {
                    (App::Main(next), action)
                }
            },
            _ => (self, FrameAction::Ignore),
        }
    }

    /// What the application wants before the event loop goes to sleep: a
    /// redraw while it is rendering, so that frames keep coming.
    pub open spec fn idle_command(self) -> HostCommand {
        match self {
            App::Main(_) => HostCommand::RequestRedraw,
            _ => HostCommand::Nothing,
        }
    }

    /// Tests the invariant at run time, for callers outside verified code.
    pub fn is_well_formed(&self) -> (b: bool)
        ensures
            b == self.wf(),
    {
        match self {
            App::Main(renderer) => renderer.is_well_formed(),
            _ => true,
        }
    }

    /// Whether the application still has to be initialized.
    pub fn needs_startup(&self) -> (b: bool)
        ensures
            b == (*self is Init),
    {
        match self {
            App::Init => true,
            _ => false,
        }
    }

    /// Initializes the renderer on the first resume. A failure stops the
    /// application for good and asks the event loop to exit; a later resume
    /// does nothing.
    pub fn resumed(&mut self, size: SurfaceSize, probe: &DeviceProbe, cull_back_faces: bool) -> (command:
        HostCommand)
        requires
            old(self).wf(),
            size.wf(),
        ensures
            (*final(self), command) == old(self).after_resume(size, *probe, cull_back_faces),
            final(self).wf(),
            *old(self) is Init ==> (*final(self) matches App::Main(renderer) ==> is_preferred(
                probe->Ready_0.formats@,
                renderer.surface.config.format,
            )),
    {
        match self {
            App::Init => match Renderer::initialize(size, probe, cull_back_faces) {
                Ok(renderer) => {
                    *self = App::Main(renderer);
                    HostCommand::Nothing
                },
                Err(error) => {
                    *self = App::Failed(FatalError::Initialization(error));
                    HostCommand::Exit
                },
            },
            _ => HostCommand::Nothing,
        }
    }

    /// Reacts to a window event. A resize to an empty extent is dropped;
    /// any other resize is recorded and followed by a redraw.
    pub fn window_event(&mut self, event: WindowEvent) -> (command: HostCommand)
        requires
            old(self).wf(),
        ensures
            (*final(self), command) == old(self).after_window_event(event),
            final(self).wf(),
    {
        match event {
            WindowEvent::CloseRequested => HostCommand::Exit,
            WindowEvent::Resized { width, height } => match *self {
                App::Main(renderer) => match SurfaceSize::new(width, height) {
                    Some(size) => {
                        let mut renderer = renderer;
                        renderer.resize_surface(size);
                        *self = App::Main(renderer);
                        HostCommand::RequestRedraw
                    },
                    None => HostCommand::Nothing,
                },
                _ => HostCommand::Nothing,
            },
            WindowEvent::RedrawRequested => match self {
                App::Main(_) => HostCommand::Draw,
                _ => HostCommand::Nothing,
            },
            WindowEvent::Other => HostCommand::Nothing,
        }
    }

    /// Says what to do before the event loop goes to sleep.
    pub fn about_to_wait(&self) -> (command: HostCommand)
        ensures
            command == self.idle_command(),
    {
        match self {
            App::Main(_) => HostCommand::RequestRedraw,
            _ => HostCommand::Nothing,
        }
    }

    /// Takes one step of the draw cycle, if the application is rendering.
    pub fn draw(&mut self, event: FrameEvent) -> (action: FrameAction)
        requires
            old(self).wf(),
        ensures
            (*final(self), action) == old(self).after_frame_event(event),
            final(self).wf(),
    {
        match *self {
            App::Main(renderer) => {
                let mut renderer = renderer;
                let action = renderer.draw(event);
                match action {
                    FrameAction::Finish(CycleResult::OutOfMemory) => {
                        *self = App::Failed(FatalError::DeviceOutOfMemory);
                    },
                    _ => {
                        *self = App::Main(renderer);
                    },
                }
                action
            },
            _ => FrameAction::Ignore,
        }
    }
}

} // verus!
