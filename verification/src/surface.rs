//! The presentation surface: its configuration, the deferred reconfiguration
//! flag, and the classification of frame acquisition failures.

use vstd::prelude::*;

verus! {

/// The extent of a window's drawable area in physical pixels.
#[derive(Clone, Copy, Debug, PartialEq, Eq, Structural)]
pub struct SurfaceSize {
    pub width: u32,
    pub height: u32,
}

impl SurfaceSize {
    /// A surface can only be configured with a non-empty extent.
    pub open spec fn wf(&self) -> bool {
        self.width > 0 && self.height > 0
    }

    /// Accepts an extent exactly when neither side is zero.
    pub fn new(width: u32, height: u32) -> (r: Option<SurfaceSize>)
        ensures
            r == (if width > 0 && height > 0 {
                Some(SurfaceSize { width, height })
            } else {
                None::<SurfaceSize>
            }),
            r matches Some(s) ==> s.wf(),
    {
        if width > 0 && height > 0 {
            Some(SurfaceSize { width, height })
        } else {
            None
        }
    }
}

/// A texture format that a surface offers. `id` is the caller's handle for
/// the format (its position in the adapter's list); `srgb` says whether the
/// format stores colour in the sRGB transfer encoding.
#[derive(Clone, Copy, Debug, PartialEq, Eq, Structural)]
pub struct SurfaceFormat {
    pub id: u32,
    pub srgb: bool,
}

/// How presented frames are paced against the display.
#[derive(Clone, Copy, Debug, PartialEq, Eq, Structural)]
pub enum PresentMode {
    AutoVsync,
    AutoNoVsync,
    Fifo,
    FifoRelaxed,
    Immediate,
    Mailbox,
}

/// How the compositor treats the alpha channel of presented frames.
#[derive(Clone, Copy, Debug, PartialEq, Eq, Structural)]
pub enum AlphaMode {
    Auto,
    Opaque,
    PreMultiplied,
    PostMultiplied,
    Inherit,
}

/// What a swap chain is configured with.
#[derive(Clone, Copy, Debug, PartialEq, Eq, Structural)]
pub struct SurfaceConfig {
    pub format: SurfaceFormat,
    pub width: u32,
    pub height: u32,
    pub present_mode: PresentMode,
    pub alpha_mode: AlphaMode,
}

impl SurfaceConfig {
    pub open spec fn wf(&self) -> bool {
        self.width > 0 && self.height > 0
    }

    /// The extent this configuration asks for.
    pub open spec fn size(&self) -> SurfaceSize {
        SurfaceSize { width: self.width, height: self.height }
    }

    /// This configuration with another extent; every other field is kept.
    pub open spec fn with_size(&self, size: SurfaceSize) -> SurfaceConfig {
        SurfaceConfig {
            format: self.format,
            width: size.width,
            height: size.height,
            present_mode: self.present_mode,
            alpha_mode: self.alpha_mode,
        }
    }
}

/// Why a frame could not be acquired from the swap chain.
#[derive(Clone, Copy, Debug, PartialEq, Eq, Structural)]
pub enum AcquireError {
    /// No frame became available in time.
    Timeout,
    /// The surface changed underneath the swap chain.
    Outdated,
    /// The swap chain is gone and has to be recreated.
    Lost,
    /// The device cannot allocate another frame.
    OutOfMemory,
}

/// The result of asking the swap chain for the next frame.
#[derive(Clone, Copy, Debug, PartialEq, Eq, Structural)]
pub enum AcquireOutcome {
    /// A frame is now held by the caller.
    Frame,
    Failed(AcquireError),
}

/// The three kinds of per-frame failure.
#[derive(Clone, Copy, Debug, PartialEq, Eq, Structural)]
pub enum FailureClass {
    /// Expected in steady state; handled inside the cycle and never reported.
    TransientAcquireFailure,
    /// The swap chain has to be rebuilt before another frame can be had.
    SurfaceLost,
    /// Unrecoverable; ends the render loop.
    DeviceOutOfMemory,
}

/// What a draw cycle does about a failed acquisition.
#[derive(Clone, Copy, Debug, PartialEq, Eq, Structural)]
pub enum Recovery {
    /// Give up on this frame; the next cycle starts afresh.
    SkipFrame,
    /// Bind the configuration again and ask for a frame once more.
    ReconfigureAndRetry,
    /// Stop rendering and report the failure to the caller.
    Fatal,
}

impl AcquireError {
    pub open spec fn class(self) -> FailureClass {
        match self {
            AcquireError::Timeout => FailureClass::TransientAcquireFailure,
            AcquireError::Outdated => FailureClass::TransientAcquireFailure,
            AcquireError::Lost => FailureClass::SurfaceLost,
            AcquireError::OutOfMemory => FailureClass::DeviceOutOfMemory,
        }
    }

    /// The policy for a failed acquisition. `retried` says whether this
    /// cycle has already reconfigured and retried once.
    pub open spec fn recovery(self, retried: bool) -> Recovery {
        match self {
            AcquireError::Timeout => Recovery::SkipFrame,
            AcquireError::OutOfMemory => Recovery::Fatal,
            AcquireError::Outdated | AcquireError::Lost => if retried {
                Recovery::SkipFrame
            } else {
                Recovery::ReconfigureAndRetry
            },
        }
    }

    /// Whether a frame skipped for this failure is worth a line in the log.
    /// A timeout is not: it is retried with the next frame.
    pub open spec fn logged(self) -> bool {
        !(self is Timeout)
    }

    /// Says whether a frame skipped for this failure should be logged.
    pub fn is_logged(self) -> (b: bool)
        ensures
            b == self.logged(),
    {
        match self {
            AcquireError::Timeout => false,
            _ => true,
        }
    }

    /// Sorts an acquisition failure into its failure class.
    pub fn classify(self) -> (c: FailureClass)
        ensures
            c == self.class(),
    {
        match self {
            AcquireError::Timeout => FailureClass::TransientAcquireFailure,
            AcquireError::Outdated => FailureClass::TransientAcquireFailure,
            AcquireError::Lost => FailureClass::SurfaceLost,
            AcquireError::OutOfMemory => FailureClass::DeviceOutOfMemory,
        }
    }

    /// Decides what the cycle does next after this failure.
    pub fn recover(self, retried: bool) -> (r: Recovery)
        ensures
            r == self.recovery(retried),
    {
        match self {
            AcquireError::Timeout => Recovery::SkipFrame,
            AcquireError::OutOfMemory => Recovery::Fatal,
            AcquireError::Outdated => if retried {
                Recovery::SkipFrame
            } else {
                Recovery::ReconfigureAndRetry
            },
            AcquireError::Lost => if retried {
                Recovery::SkipFrame
            } else {
                Recovery::ReconfigureAndRetry
            },
        }
    }
}

/// A swap chain as the renderer sees it: the configuration it should have,
/// whether that configuration still has to be bound, the configuration
/// that was bound last, and whether one of its frames is out.
#[derive(Clone, Copy, Debug, PartialEq, Eq, Structural)]
pub struct PresentationSurface {
    /// The configuration the surface is meant to have.
    pub config: SurfaceConfig,
    /// Set by every resize, and while the surface has never been
    /// configured; cleared when the configuration is bound.
    pub needs_reconfigure: bool,
    /// The configuration the swap chain was last given, if any.
    pub live: Option<SurfaceConfig>,
    /// Whether a frame has been acquired and not yet presented.
    pub frame_held: bool,
}

impl PresentationSurface {
    /// The extent is non-empty, a cleared flag means that the swap chain
    /// has exactly the wanted configuration, and a frame can only be out of
    /// a swap chain that has been configured.
    pub open spec fn wf(&self) -> bool {
        &&& self.config.wf()
        &&& !self.needs_reconfigure ==> self.live == Some(self.config)
        &&& self.frame_held ==> self.live is Some
    }

    /// A surface that has never been configured.
    pub open spec fn unconfigured(config: SurfaceConfig) -> PresentationSurface {
        PresentationSurface { config, needs_reconfigure: true, live: None, frame_held: false }
    }

    /// The surface after a resize to `size`.
    pub open spec fn resized(&self, size: SurfaceSize) -> PresentationSurface {
        PresentationSurface {
            config: self.config.with_size(size),
            needs_reconfigure: true,
            live: self.live,
            frame_held: self.frame_held,
        }
    }

    /// The surface after its configuration has been bound. A frame that was
    /// out is gone with the old swap chain.
    pub open spec fn configured(&self) -> PresentationSurface {
        PresentationSurface {
            config: self.config,
            needs_reconfigure: false,
            live: Some(self.config),
            frame_held: false,
        }
    }

    /// The surface with a frame out, or with none.
    pub open spec fn with_frame(&self, held: bool) -> PresentationSurface {
        PresentationSurface {
            config: self.config,
            needs_reconfigure: self.needs_reconfigure,
            live: self.live,
            frame_held: held,
        }
    }

    /// Tests the invariant at run time, for callers that build or change a
    /// surface by hand.
    pub fn is_well_formed(&self) -> (b: bool)
        ensures
            b == self.wf(),
    {
        if self.config.width == 0 || self.config.height == 0 {
            return false;
        }
        match self.live {
            Some(live) => self.needs_reconfigure || live == self.config,
            None => self.needs_reconfigure && !self.frame_held,
        }
    }

    /// A surface that has never been configured.
    pub fn new(config: SurfaceConfig) -> (s: PresentationSurface)
        requires
            config.wf(),
        ensures
            s == PresentationSurface::unconfigured(config),
            s.wf(),
    {
        PresentationSurface { config, needs_reconfigure: true, live: None, frame_held: false }
    }

    /// Records a new extent and marks the surface for reconfiguration. The
    /// swap chain itself is left alone until the next draw.
    pub fn resize(&mut self, size: SurfaceSize)
        requires
            size.wf(),
        ensures
            *final(self) == old(self).resized(size),
            old(self).wf() ==> final(self).wf(),
    {
        self.config.width = size.width;
        self.config.height = size.height;
        self.needs_reconfigure = true;
    }

    /// Hands out the configuration to bind to the swap chain and records it
    /// as bound. A frame acquired before this call is no longer valid.
    pub fn configure(&mut self) -> (bound: SurfaceConfig)
        requires
            old(self).config.wf(),
        ensures
            bound == old(self).config,
            *final(self) == old(self).configured(),
            final(self).wf(),
            !final(self).frame_held,
    {
        self.needs_reconfigure = false;
        self.live = Some(self.config);
        self.frame_held = false;
        self.config
    }

    /// Records that the swap chain has handed out a frame.
    pub fn frame_acquired(&mut self)
        requires
            old(self).wf(),
            old(self).live is Some,
        ensures
            *final(self) == old(self).with_frame(true),
            final(self).wf(),
    {
        self.frame_held = true;
    }

    /// Records that the frame has been presented; the handle is spent.
    pub fn frame_presented(&mut self)
        requires
            old(self).wf(),
        ensures
            *final(self) == old(self).with_frame(false),
            final(self).wf(),
    {
        self.frame_held = false;
    }
}

} // verus!
