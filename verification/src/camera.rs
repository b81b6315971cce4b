//! The part of the camera that the frame lifecycle decides: the aspect
//! ratio the projection is built for, and whether the matrix in the uniform
//! buffer still has to be rebuilt for it.

use vstd::prelude::*;
use crate::surface::SurfaceSize;

verus! {

/// An aspect ratio as the exact fraction `width / height`.
#[derive(Clone, Copy, Debug, PartialEq, Eq, Structural)]
pub struct AspectRatio {
    pub width: u32,
    pub height: u32,
}

impl AspectRatio {
    pub open spec fn wf(&self) -> bool {
        self.width > 0 && self.height > 0
    }

    /// The aspect ratio of a surface of the given extent.
    pub open spec fn of(size: SurfaceSize) -> AspectRatio {
        AspectRatio { width: size.width, height: size.height }
    }

    /// Whether two fractions have the same value.
    pub open spec fn same_value(&self, other: AspectRatio) -> bool {
        self.width * other.height == other.width * self.height
    }

    /// The aspect ratio of a surface of the given extent.
    pub fn from_size(size: SurfaceSize) -> (a: AspectRatio)
        ensures
            a == AspectRatio::of(size),
            size.wf() ==> a.wf(),
    {
        AspectRatio { width: size.width, height: size.height }
    }

    /// Compares two ratios by value, so that 800/600 equals 4/3.
    pub fn equals(&self, other: &AspectRatio) -> (b: bool)
        ensures
            b == self.same_value(*other),
    {
        let left: u64 = mul_wide(self.width, other.height);
        let right: u64 = mul_wide(other.width, self.height);
        left == right
    }
}

/// The product of two 32-bit numbers, which always fits 64 bits.
fn mul_wide(a: u32, b: u32) -> (p: u64)
    ensures
        p == a * b,
{
    assert(a * b <= 0xffff_ffff * 0xffff_ffff) by (nonlinear_arith)
        requires
            0 <= a <= 0xffff_ffff,
            0 <= b <= 0xffff_ffff,
    ;
    (a as u64) * (b as u64)
}

/// The camera's uniform buffer as the renderer tracks it.
#[derive(Clone, Copy, Debug, PartialEq, Eq, Structural)]
pub struct CameraBinding {
    /// The aspect ratio the projection must be built for.
    pub aspect: AspectRatio,
    /// Set whenever the aspect ratio is set; cleared when the matrix is
    /// rebuilt and written.
    pub stale: bool,
    /// The aspect ratio that the renderer last asked the matrix to be
    /// rebuilt and written for, if it ever did.
    pub uploaded: Option<AspectRatio>,
}

impl CameraBinding {
    /// A cleared flag means that the last write asked for was for the
    /// current aspect ratio.
    pub open spec fn wf(&self) -> bool {
        &&& self.aspect.wf()
        &&& !self.stale ==> self.uploaded == Some(self.aspect)
    }

    /// The binding after the aspect ratio has been set to `aspect`.
    pub open spec fn retargeted(&self, aspect: AspectRatio) -> CameraBinding {
        CameraBinding { aspect, stale: true, uploaded: self.uploaded }
    }

    /// The binding after a frame has been prepared.
    pub open spec fn refreshed(&self) -> CameraBinding {
        if self.stale {
            CameraBinding { aspect: self.aspect, stale: false, uploaded: Some(self.aspect) }
        } else {
            *self
        }
    }

    /// What has to be written before the next render pass: the aspect ratio
    /// to rebuild the matrix for, or nothing.
    pub open spec fn pending(&self) -> Option<AspectRatio> {
        if self.stale {
            Some(self.aspect)
        } else {
            None
        }
    }

    /// Tests the invariant at run time.
    pub fn is_well_formed(&self) -> (b: bool)
        ensures
            b == self.wf(),
    {
        if self.aspect.width == 0 || self.aspect.height == 0 {
            return false;
        }
        if self.stale {
            return true;
        }
        match self.uploaded {
            Some(uploaded) => uploaded == self.aspect,
            None => false,
        }
    }

    /// A binding whose buffer has not been written yet.
    pub fn new(aspect: AspectRatio) -> (c: CameraBinding)
        requires
            aspect.wf(),
        ensures
            c == (CameraBinding { aspect, stale: true, uploaded: None }),
            c.wf(),
    {
        CameraBinding { aspect, stale: true, uploaded: None }
    }

    /// Sets the aspect ratio and marks the matrix as stale.
    pub fn set_aspect(&mut self, aspect: AspectRatio)
        requires
            aspect.wf(),
        ensures
            *final(self) == old(self).retargeted(aspect),
            final(self).wf(),
    {
        self.aspect = aspect;
        self.stale = true;
    }

    /// Hands out the aspect ratio to rebuild the matrix for, if the matrix
    /// is stale, and records the write.
    pub fn refresh(&mut self) -> (write: Option<AspectRatio>)
        requires
            old(self).wf(),
        ensures
            write == old(self).pending(),
            *final(self) == old(self).refreshed(),
            final(self).wf(),
            final(self).uploaded == Some(final(self).aspect),
    {
        if self.stale {
            self.stale = false;
            self.uploaded = Some(self.aspect);
            Some(self.aspect)
        } else {
            None
        }
    }
}

} // verus!
