//! The mesh that is drawn every frame: its index data as the device wants
//! it, and the single draw call that covers it.

use vstd::prelude::*;

verus! {

/// The width of one index in an index buffer.
#[derive(Clone, Copy, Debug, PartialEq, Eq, Structural)]
pub enum IndexFormat {
    Uint16,
    Uint32,
}

/// The one draw call of a render pass. Always a single instance, starting at
/// the first index or vertex.
#[derive(Clone, Copy, Debug, PartialEq, Eq, Structural)]
pub enum DrawCall {
    Indexed { index_count: u32, format: IndexFormat },
    Direct { vertex_count: u32 },
}

/// `bytes` holds every index of `indices` in order, low byte first.
pub open spec fn little_endian_indices(indices: Seq<u16>, bytes: Seq<u8>) -> bool {
    &&& bytes.len() == 2 * indices.len()
    &&& forall|i: int|
        0 <= i < indices.len() ==> {
            &&& bytes[2 * i] == (#[trigger] indices[i]) % 256
            &&& bytes[2 * i + 1] == indices[i] / 256
        }
}

/// `bytes` holds every index of `indices` in order, high byte first.
pub open spec fn big_endian_indices(indices: Seq<u16>, bytes: Seq<u8>) -> bool {
    &&& bytes.len() == 2 * indices.len()
    &&& forall|i: int|
        0 <= i < indices.len() ==> {
            &&& bytes[2 * i] == (#[trigger] indices[i]) / 256
            &&& bytes[2 * i + 1] == indices[i] % 256
        }
}

/// `bytes` is the in-memory form of `indices` on some machine: two bytes per
/// index, in one byte order throughout.
pub open spec fn native_indices(indices: Seq<u16>, bytes: Seq<u8>) -> bool {
    little_endian_indices(indices, bytes) || big_endian_indices(indices, bytes)
}

/// Calls `bytemuck::cast_slice::<u16, u8>`, which reinterprets the slice's
/// memory as bytes. Not proved: that the result has two bytes per index and
/// holds each index in the machine's byte order. The cast cannot fail in
/// this direction, since bytes need no alignment and any length will do.
#[verifier::external_body]
fn cast_indices(indices: &[u16]) -> (bytes: &[u8])
    ensures
        native_indices(indices@, bytes@),
{
    bytemuck::cast_slice::<u16, u8>(indices)
}

/// The indices of the mesh: a pentagon as a fan of three triangles around
/// its last corner.
pub open spec fn pentagon_index_seq() -> Seq<u16> {
    seq![0u16, 1u16, 4u16, 1u16, 2u16, 4u16, 2u16, 3u16, 4u16]
}

/// The number of corners of the pentagon.
pub const PENTAGON_VERTEX_COUNT: u32 = 5;

/// Whether `indices` describes a triangle list over `vertex_count`
/// vertices: whole triangles only, every index names a vertex, and the
/// count fits a draw call.
pub open spec fn valid_indices(vertex_count: u32, indices: Seq<u16>) -> bool {
    &&& indices.len() <= u32::MAX
    &&& indices.len() % 3 == 0
    &&& forall|i: int| 0 <= i < indices.len() ==> indices[i] < vertex_count
}

/// What the renderer has to know about the buffers of a mesh.
#[derive(Clone, Copy, Debug, PartialEq, Eq, Structural)]
pub struct MeshLayout {
    pub vertex_count: u32,
    /// The number of indices, or `None` for a mesh without an index buffer.
    pub index_count: Option<u32>,
}

impl MeshLayout {
    /// The draw call that covers the whole mesh.
    pub open spec fn full_draw(&self) -> DrawCall {
        match self.index_count {
            Some(n) => DrawCall::Indexed { index_count: n, format: IndexFormat::Uint16 },
            None => DrawCall::Direct { vertex_count: self.vertex_count },
        }
    }

    /// Describes an indexed mesh, if its indices are valid for it.
    pub fn indexed(vertex_count: u32, indices: &Vec<u16>) -> (r: Option<MeshLayout>)
        ensures
            r == (if valid_indices(vertex_count, indices@) {
                Some(
                    MeshLayout { vertex_count, index_count: Some(indices@.len() as u32) },
                )
            } else {
                None::<MeshLayout>
            }),
    {
        let n: usize = indices.len();
        if n > 0xffff_ffff || n % 3 != 0 {
            return None;
        }
        let mut i: usize = 0;
        while i < n
            invariant
                n == indices@.len(),
                i <= n,
                forall|j: int| 0 <= j < i ==> indices@[j] < vertex_count,
            decreases n - i,
        {
            if indices[i] as u32 >= vertex_count {
                return None;
            }
            i += 1;
        }
        Some(MeshLayout { vertex_count, index_count: Some(n as u32) })
    }

    /// The layout of the pentagon mesh, from its index data.
    pub fn pentagon() -> (m: MeshLayout)
        ensures
            m == (MeshLayout { vertex_count: 5, index_count: Some(9u32) }),
            valid_indices(m.vertex_count, pentagon_index_seq()),
    {
        let indices = pentagon_indices();
        assert(valid_indices(PENTAGON_VERTEX_COUNT, indices@));
        MeshLayout::indexed(PENTAGON_VERTEX_COUNT, &indices).unwrap()
    }

    /// Picks the draw call that covers the whole mesh.
    pub fn draw_call(&self) -> (d: DrawCall)
        ensures
            d == self.full_draw(),
    {
        match self.index_count {
            Some(n) => DrawCall::Indexed { index_count: n, format: IndexFormat::Uint16 },
            None => DrawCall::Direct { vertex_count: self.vertex_count },
        }
    }
}

/// The index data of the pentagon.
pub fn pentagon_indices() -> (v: Vec<u16>)
    ensures
        v@ == pentagon_index_seq(),
{
    let mut v: Vec<u16> = Vec::new();
    v.push(0);
    v.push(1);
    v.push(4);
    v.push(1);
    v.push(2);
    v.push(4);
    v.push(2);
    v.push(3);
    v.push(4);
    assert(v@ =~= pentagon_index_seq());
    v
}

/// The contents of the index buffer for `indices`: what the device reads
/// as 16-bit indices.
pub fn index_bytes(indices: &Vec<u16>) -> (bytes: &[u8])
    ensures
        bytes@.len() == 2 * indices@.len(),
        native_indices(indices@, bytes@),
{
    cast_indices(indices.as_slice())
}

} // verus!
