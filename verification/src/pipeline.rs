//! The render pipeline's description: the vertex layout the shader expects
//! and the fixed state the pipeline is built with.

use vstd::prelude::*;
use crate::surface::SurfaceFormat;

verus! {

/// The bind group and binding at which the vertex stage reads the camera's
/// view-projection matrix.
pub const CAMERA_BIND_GROUP: u32 = 0;

pub const CAMERA_BINDING: u32 = 0;

/// The vertex buffer slot the mesh's vertices are bound at.
pub const VERTEX_BUFFER_SLOT: u32 = 0;

/// The shader locations of the two vertex attributes.
pub const POSITION_LOCATION: u32 = 0;

pub const COLOR_LOCATION: u32 = 1;

/// The two entry points of the shader program.
#[derive(Clone, Copy, Debug, PartialEq, Eq, Structural)]
pub enum ShaderEntry {
    /// The vertex stage: reads a position and a colour per vertex and the
    /// camera's matrix, writes the clip-space position and the colour.
    VsMain,
    /// The fragment stage: reads the interpolated colour, writes the
    /// pixel's colour.
    FsMain,
}

/// The name of the vertex stage's entry point in the shader program.
pub const VERTEX_ENTRY_POINT: &'static str = "vs_main";

/// The name of the fragment stage's entry point in the shader program.
pub const FRAGMENT_ENTRY_POINT: &'static str = "fs_main";

impl ShaderEntry {
    /// The name under which the shader program exports this entry point.
    pub open spec fn name_chars(self) -> Seq<char> {
        match self {
            ShaderEntry::VsMain => "vs_main"@,
            ShaderEntry::FsMain => "fs_main"@,
        }
    }

    /// Names the entry point as the shader program does.
    pub fn name(self) -> (name: &'static str)
        ensures
            name@ == self.name_chars(),
    {
        match self {
            ShaderEntry::VsMain => VERTEX_ENTRY_POINT,
            ShaderEntry::FsMain => FRAGMENT_ENTRY_POINT,
        }
    }
}

/// The type of one vertex attribute.
#[derive(Clone, Copy, Debug, PartialEq, Eq, Structural)]
pub enum VertexFormat {
    /// Three 32-bit floating-point components.
    Float32x3,
}

impl VertexFormat {
    /// The number of bytes one attribute of this format takes.
    pub open spec fn byte_len(self) -> nat {
        match self {
            VertexFormat::Float32x3 => 12,
        }
    }

    pub fn size(self) -> (n: u64)
        ensures
            n == self.byte_len(),
    {
        match self {
            VertexFormat::Float32x3 => 12,
        }
    }
}

/// One input of the vertex stage.
#[derive(Clone, Copy, Debug, PartialEq, Eq, Structural)]
pub struct VertexAttribute {
    pub location: u32,
    pub offset: u64,
    pub format: VertexFormat,
}

/// How one vertex lies in the vertex buffer.
#[derive(Clone, Copy, Debug, PartialEq, Eq, Structural)]
pub struct VertexLayout {
    /// The distance in bytes from one vertex to the next.
    pub stride: u64,
    pub position: VertexAttribute,
    pub color: VertexAttribute,
}

impl VertexLayout {
    /// The layout matches the shader's inputs and is tightly packed: the
    /// position comes first, the colour directly after it, and the next
    /// vertex directly after that.
    pub open spec fn wf(&self) -> bool {
        &&& self.position.location == POSITION_LOCATION
        &&& self.color.location == COLOR_LOCATION
        &&& self.position.offset == 0
        &&& self.color.offset == self.position.offset + self.position.format.byte_len()
        &&& self.stride == self.color.offset + self.color.format.byte_len()
    }

    /// The layout of a vertex made of a position and a colour.
    pub open spec fn position_color() -> VertexLayout {
        VertexLayout {
            stride: 24,
            position: VertexAttribute {
                location: POSITION_LOCATION,
                offset: 0,
                format: VertexFormat::Float32x3,
            },
            color: VertexAttribute {
                location: COLOR_LOCATION,
                offset: 12,
                format: VertexFormat::Float32x3,
            },
        }
    }

    /// Tests the invariant at run time.
    pub fn is_well_formed(&self) -> (b: bool)
        ensures
            b == self.wf(),
    {
        if self.position.location != POSITION_LOCATION || self.color.location != COLOR_LOCATION {
            return false;
        }
        if self.position.offset != 0 || self.color.offset != self.position.format.size() {
            return false;
        }
        self.stride == self.color.offset + self.color.format.size()
    }

    /// Lays out a position and a colour one after the other.
    pub fn packed() -> (l: VertexLayout)
        ensures
            l == VertexLayout::position_color(),
            l.wf(),
    {
        let position = VertexAttribute {
            location: POSITION_LOCATION,
            offset: 0,
            format: VertexFormat::Float32x3,
        };
        let color = VertexAttribute {
            location: COLOR_LOCATION,
            offset: position.offset + position.format.size(),
            format: VertexFormat::Float32x3,
        };
        VertexLayout { stride: color.offset + color.format.size(), position, color }
    }
}

/// How vertices are assembled into primitives.
#[derive(Clone, Copy, Debug, PartialEq, Eq, Structural)]
pub enum PrimitiveTopology {
    PointList,
    LineList,
    LineStrip,
    TriangleList,
    TriangleStrip,
}

/// Which faces are discarded before rasterization.
#[derive(Clone, Copy, Debug, PartialEq, Eq, Structural)]
pub enum CullMode {
    Disabled,
    Front,
    Back,
}

/// How a fragment's colour is combined with the colour target.
#[derive(Clone, Copy, Debug, PartialEq, Eq, Structural)]
pub enum BlendState {
    /// The fragment's colour and alpha replace what the target holds.
    Replace,
    AlphaBlending,
    PremultipliedAlphaBlending,
}

/// Everything a pipeline is built from, apart from the shader itself.
/// Built once; nothing in it changes afterwards.
#[derive(Clone, Copy, Debug, PartialEq, Eq, Structural)]
pub struct PipelineDescriptor {
    /// The entry point of the vertex stage.
    pub vertex_entry: ShaderEntry,
    /// The entry point of the fragment stage.
    pub fragment_entry: ShaderEntry,
    pub vertex_layout: VertexLayout,
    pub topology: PrimitiveTopology,
    pub cull_mode: CullMode,
    pub blend: BlendState,
    /// The format of the single colour target.
    pub color_target_format: SurfaceFormat,
    pub sample_count: u32,
}

impl PipelineDescriptor {
    pub open spec fn wf(&self) -> bool {
        &&& self.vertex_entry == ShaderEntry::VsMain
        &&& self.fragment_entry == ShaderEntry::FsMain
        &&& self.vertex_layout.wf()
        &&& self.topology == PrimitiveTopology::TriangleList
        &&& self.blend == BlendState::Replace
        &&& self.sample_count == 1
        &&& self.cull_mode != CullMode::Front
    }

    /// Tests the invariant at run time.
    pub fn is_well_formed(&self) -> (b: bool)
        ensures
            b == self.wf(),
    {
        self.vertex_entry == ShaderEntry::VsMain && self.fragment_entry == ShaderEntry::FsMain
            && self.vertex_layout.is_well_formed() && self.topology
            == PrimitiveTopology::TriangleList
            && self.blend == BlendState::Replace && self.sample_count == 1 && self.cull_mode
            != CullMode::Front
    }

    /// The pipeline for a colour target of `format`. Back faces are culled
    /// unless `cull_back_faces` is switched off.
    pub open spec fn for_target(format: SurfaceFormat, cull_back_faces: bool) -> PipelineDescriptor {
        PipelineDescriptor {
            vertex_entry: ShaderEntry::VsMain,
            fragment_entry: ShaderEntry::FsMain,
            vertex_layout: VertexLayout::position_color(),
            topology: PrimitiveTopology::TriangleList,
            cull_mode: if cull_back_faces {
                CullMode::Back
            } else {
                CullMode::Disabled
            },
            blend: BlendState::Replace,
            color_target_format: format,
            sample_count: 1,
        }
    }

    /// Describes the pipeline for a colour target of `format`.
    pub fn build(format: SurfaceFormat, cull_back_faces: bool) -> (p: PipelineDescriptor)
        ensures
            p == PipelineDescriptor::for_target(format, cull_back_faces),
            p.wf(),
    {
        PipelineDescriptor {
            vertex_entry: ShaderEntry::VsMain,
            fragment_entry: ShaderEntry::FsMain,
            vertex_layout: VertexLayout::packed(),
            topology: PrimitiveTopology::TriangleList,
            cull_mode: if cull_back_faces {
                CullMode::Back
            } else {
                CullMode::Disabled
            },
            blend: BlendState::Replace,
            color_target_format: format,
            sample_count: 1,
        }
    }
}

} // verus!
