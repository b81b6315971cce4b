//! What the renderer is initialized from: the outcome of probing the
//! graphics device, and the choice of the surface's format.

use vstd::prelude::*;
use crate::surface::{AlphaMode, SurfaceFormat};

verus! {

/// What an adapter supports for a surface, in the adapter's order of
/// preference.
#[derive(Debug)]
pub struct SurfaceCapabilities {
    pub formats: Vec<SurfaceFormat>,
    pub alpha_modes: Vec<AlphaMode>,
}

impl SurfaceCapabilities {
    /// A surface can be configured only if the adapter offers at least one
    /// format and one alpha mode for it.
    pub open spec fn usable(&self) -> bool {
        self.formats@.len() > 0 && self.alpha_modes@.len() > 0
    }
}

/// How far the program got in bringing up the graphics device.
#[derive(Debug)]
pub enum DeviceProbe {
    /// No adapter is compatible with the surface.
    AdapterMissing,
    /// The adapter would not hand out a device.
    DeviceRefused,
    /// The device rejected the shader program.
    ShaderRejected,
    /// Adapter, device and shader are there.
    Ready(SurfaceCapabilities),
}

/// Why the renderer could not be initialized. Each of these ends startup
/// before the first frame.
#[derive(Clone, Copy, Debug, PartialEq, Eq, Structural)]
pub enum InitError {
    NoAdapter,
    NoDevice,
    ShaderRejected,
    /// The adapter offers no format or no alpha mode for the surface.
    UnsupportedSurface,
}

impl DeviceProbe {
    /// The error that a probe stands for, if it stands for one.
    pub open spec fn failure(&self) -> Option<InitError> {
        match self {
            DeviceProbe::AdapterMissing => Some(InitError::NoAdapter),
            DeviceProbe::DeviceRefused => Some(InitError::NoDevice),
            DeviceProbe::ShaderRejected => Some(InitError::ShaderRejected),
            DeviceProbe::Ready(caps) => if caps.usable() {
                None
            } else {
                Some(InitError::UnsupportedSurface)
            },
        }
    }
}

/// The first sRGB format on offer, if there is one.
pub open spec fn first_srgb(formats: Seq<SurfaceFormat>) -> Option<SurfaceFormat>
    decreases formats.len(),
{
    if formats.len() == 0 {
        None
    } else if formats[0].srgb {
        Some(formats[0])
    } else {
        first_srgb(formats.drop_first())
    }
}

/// The format to configure a surface with, given the formats on offer: the
/// first sRGB format, or the first format of all where none is sRGB.
pub open spec fn preferred_format(formats: Seq<SurfaceFormat>) -> Option<SurfaceFormat> {
    if formats.len() == 0 {
        None
    } else {
        match first_srgb(formats) {
            Some(format) => Some(format),
            None => Some(formats[0]),
        }
    }
}

/// The same choice, said without recursion: `chosen` stands at a position
/// before which no format is sRGB, and it is sRGB itself unless no format
/// is and it stands first.
pub open spec fn is_preferred(formats: Seq<SurfaceFormat>, chosen: SurfaceFormat) -> bool {
    exists|k: int|
        {
            &&& 0 <= k < formats.len()
            &&& #[trigger] formats[k] == chosen
            &&& forall|j: int| 0 <= j < k ==> !(#[trigger] formats[j]).srgb
            &&& chosen.srgb || (k == 0 && forall|j: int|
                0 <= j < formats.len() ==> !(#[trigger] formats[j]).srgb)
        }
}

/// Chooses the surface's format. There is a choice exactly when at least
/// one format is on offer.
pub fn select_surface_format(formats: &Vec<SurfaceFormat>) -> (r: Option<SurfaceFormat>)
    ensures
        r == preferred_format(formats@),
        r is Some <==> formats@.len() > 0,
        r matches Some(f) ==> is_preferred(formats@, f),
{
    let n: usize = formats.len();
    if n == 0 {
        return None;
    }
    let mut i: usize = 0;
    assert(formats@.skip(0) =~= formats@);
    while i < n
        invariant
            n == formats@.len(),
            i <= n,
            forall|j: int| 0 <= j < i ==> !(#[trigger] formats@[j]).srgb,
            first_srgb(formats@) == first_srgb(formats@.skip(i as int)),
        decreases n - i,
    {
        if formats[i].srgb {
            let f: SurfaceFormat = formats[i];
            assert(formats@[i as int] == f);
            return Some(f);
        }
        assert(formats@.skip(i as int).drop_first() =~= formats@.skip(i + 1));
        i += 1;
    }
    let f: SurfaceFormat = formats[0];
    assert(formats@[0] == f);
    Some(f)
}

/// Two formats that both meet the description of the preferred one are
/// the same.
proof fn preferred_is_unique(formats: Seq<SurfaceFormat>, a: SurfaceFormat, b: SurfaceFormat)
    requires
        is_preferred(formats, a),
        is_preferred(formats, b),
    ensures
        a == b,
{
    let ka = choose|k: int|
        {
            &&& 0 <= k < formats.len()
            &&& #[trigger] formats[k] == a
            &&& forall|j: int| 0 <= j < k ==> !(#[trigger] formats[j]).srgb
            &&& a.srgb || (k == 0 && forall|j: int|
                0 <= j < formats.len() ==> !(#[trigger] formats[j]).srgb)
        };
    let kb = choose|k: int|
        {
            &&& 0 <= k < formats.len()
            &&& #[trigger] formats[k] == b
            &&& forall|j: int| 0 <= j < k ==> !(#[trigger] formats[j]).srgb
            &&& b.srgb || (k == 0 && forall|j: int|
                0 <= j < formats.len() ==> !(#[trigger] formats[j]).srgb)
        };
    if ka < kb {
        assert(!formats[ka].srgb);
    } else if kb < ka {
        assert(!formats[kb].srgb);
    }
}

/// `position` is where the first sRGB format stands.
spec fn is_first_srgb_at(formats: Seq<SurfaceFormat>, position: int) -> bool {
    &&& 0 <= position < formats.len()
    &&& formats[position].srgb
    &&& forall|j: int| 0 <= j < position ==> !(#[trigger] formats[j]).srgb
}

/// What `first_srgb` finds is sRGB and has no sRGB format before it; where
/// it finds nothing, no format is sRGB.
proof fn first_srgb_is_first(formats: Seq<SurfaceFormat>) -> (position: int)
    ensures
        match first_srgb(formats) {
            Some(found) => is_first_srgb_at(formats, position) && formats[position] == found,
            None => forall|j: int| 0 <= j < formats.len() ==> !(#[trigger] formats[j]).srgb,
        },
    decreases formats.len(),
{
    if formats.len() == 0 {
        0
    } else if formats[0].srgb {
        0
    } else {
        let rest = formats.drop_first();
        let inner = first_srgb_is_first(rest);
        assert forall|j: int| 0 <= j < formats.len() && (first_srgb(rest) is Some ==> j < inner
            + 1) implies !(#[trigger] formats[j]).srgb by {
            if j > 0 {
                assert(formats[j] == rest[j - 1]);
            }
        }
        if first_srgb(rest) is Some {
            assert(formats[inner + 1] == rest[inner]);
        }
        inner + 1
    }
}

/// The two descriptions of the preferred format agree: a format meets the
/// one without recursion exactly when it is the one that `preferred_format`
/// names.
pub proof fn preferred_format_is_the_preferred_one(
    formats: Seq<SurfaceFormat>,
    chosen: SurfaceFormat,
)
    ensures
        is_preferred(formats, chosen) <==> preferred_format(formats) == Some(chosen),
{
    if formats.len() > 0 {
        let position = first_srgb_is_first(formats);
        let named = preferred_format(formats)->Some_0;
        if first_srgb(formats) is Some {
            assert(formats[position] == named);
        } else {
            assert(formats[0] == named);
        }
        assert(is_preferred(formats, named));
        if is_preferred(formats, chosen) {
            preferred_is_unique(formats, chosen, named);
        }
    }
}

} // verus!
