//! The vertex and index buffers for quad geometry.
//!
//! `GpuBuffer` is the authoritative model of the two device buffers: their
//! capacity in quads, the index data, and the vertex data most recently
//! written.  Capacity grows monotonically; the index pattern `{0,1,2,2,3,0}`
//! offset by four vertices per quad is regenerated in full on every growth.
//! The driver mirrors this model into device memory; a driver-side
//! allocation failure is simply not applied here, so the model and the old
//! buffers stay valid and unchanged.

use vstd::prelude::*;

use crate::error::BufferGrowthError;
use crate::graphics::vertex::{Vertex, VERTEX_BYTES};
use crate::graphics::{to_vertices_seq, TexturedQuad};

verus! {

/// Largest quad capacity addressable with 16-bit indices: quad `k` uses
/// vertex indices `4k .. 4k+3`, and `4 * MAX_QUADS - 1 == u16::MAX`.
pub const MAX_QUADS: usize = 16384;

/// Bytes of one quad's four vertices.
pub const QUAD_VERTEX_BYTES: usize = 4 * VERTEX_BYTES;

/// Bytes of one quad's six 16-bit indices.
pub const QUAD_INDEX_BYTES: usize = 12;

/// The index pattern within one quad: `{0, 1, 2, 2, 3, 0}`.
pub open spec fn index_pattern(j: int) -> int {
    if j == 0 {
        0
    } else if j == 1 {
        1
    } else if j == 2 {
        2
    } else if j == 3 {
        2
    } else if j == 4 {
        3
    } else {
        0
    }
}

/// The full index buffer content for `n` quads: the pattern replicated and
/// offset by four vertices per quad.
pub open spec fn quad_index_seq(n: nat) -> Seq<u16> {
    Seq::new(6 * n, |i: int| (4 * (i / 6) + index_pattern(i % 6)) as u16)
}

/// The vertex buffer content for a batch of quads: four vertices per quad,
/// in batch order.
pub open spec fn flat_vertices(qs: Seq<TexturedQuad>) -> Seq<Vertex> {
    Seq::new(4 * qs.len(), |k: int| to_vertices_seq(qs[k / 4])[k % 4])
}

/// A planned growth of both buffers: what the driver must allocate and
/// the index data to upload, computed before anything is applied.
#[derive(Debug)]
pub struct GrowthRequest {
    /// The capacity, in quads, the new buffers hold.
    pub new_cap: usize,
    /// Bytes of the new vertex buffer.
    pub vertex_bytes: usize,
    /// Bytes of the new index buffer.
    pub index_bytes: usize,
    /// The full index data for the new capacity.
    pub indices: Vec<u16>,
}

impl GrowthRequest {
    /// The request is internally consistent: sizes and index data match
    /// the requested capacity.
    pub open spec fn wf(self) -> bool {
        &&& 1 <= self.new_cap <= MAX_QUADS
        &&& self.vertex_bytes == self.new_cap * QUAD_VERTEX_BYTES
        &&& self.index_bytes == self.new_cap * QUAD_INDEX_BYTES
        &&& self.indices@ == quad_index_seq(self.new_cap as nat)
    }
}

/// The quad-unit vertex and index buffers.
#[derive(Debug)]
pub struct GpuBuffer {
    /// Capacity in quads; vertex and index buffers are always sized together.
    pub cap: usize,
    /// The index data, regenerated in full for the capacity on every growth.
    pub indices: Vec<u16>,
    /// The vertex data; four slots per quad of capacity.
    pub vertices: Vec<Vertex>,
}

impl GpuBuffer {
    /// Well-formedness: the index buffer holds exactly the pattern for the
    /// capacity, and the vertex buffer has four slots per quad.
    pub open spec fn wf(self) -> bool {
        &&& self.cap <= MAX_QUADS
        &&& self.indices@ == quad_index_seq(self.cap as nat)
        &&& self.vertices@.len() == 4 * self.cap
    }

    /// A fresh pair of buffers holding `n` quads.
    pub fn new(n: usize) -> (r: GpuBuffer)
        requires
            n <= MAX_QUADS,
        ensures
            r.wf(),
            r.cap == n,
            r.vertices@ =~= Seq::new(4 * n as nat, |k: int| Vertex::zeroed_spec()),
    {
        GpuBuffer { cap: n, indices: quad_indices(n), vertices: zeroed_vertices(n) }
    }

    /// Bytes of device memory the vertex buffer needs.
    pub fn vertex_bytes(&self) -> (r: usize)
        requires
            self.wf(),
        ensures
            r == self.cap * QUAD_VERTEX_BYTES,
    {
        self.cap * QUAD_VERTEX_BYTES
    }

    /// Bytes of device memory the index buffer needs.
    pub fn index_bytes(&self) -> (r: usize)
        requires
            self.wf(),
        ensures
            r == self.cap * QUAD_INDEX_BYTES,
    {
        self.cap * QUAD_INDEX_BYTES
    }

    /// Grow both buffers to hold at least `n` quads.  Growth is
    /// all-or-nothing: a failed request leaves capacity and content
    /// unchanged, and capacity never decreases.
    pub fn ensure_capacity(&mut self, n: usize) -> (r: Result<(), BufferGrowthError>)
        requires
            old(self).wf(),
        ensures
            final(self).wf(),
            final(self).cap >= old(self).cap,
            r is Ok ==> final(self).cap >= n,
            n <= old(self).cap ==> r is Ok && *final(self) == *old(self),
            old(self).cap < n <= MAX_QUADS ==> r is Ok && final(self).cap == n
                && final(self).vertices@ =~= Seq::new(
                4 * n as nat,
                |k: int| Vertex::zeroed_spec(),
            ),
            n > MAX_QUADS ==> r == Err::<(), BufferGrowthError>(
                BufferGrowthError::CapacityTooLarge,
            ) && *final(self) == *old(self),
    {
        if n <= self.cap {
            Ok(())
        } else if n > MAX_QUADS {
            Err(BufferGrowthError::CapacityTooLarge)
        } else {
            let indices = quad_indices(n);
            let vertices = zeroed_vertices(n);
            self.cap = n;
            self.indices = indices;
            self.vertices = vertices;
            Ok(())
        }
    }

    /// Plan a growth to hold at least `n` quads, without touching the
    /// buffers: `Ok(None)` when the capacity already suffices, else the
    /// request the driver allocates from.  Nothing changes until the
    /// driver's allocations succeed and it commits the plan, so a failed
    /// allocation leaves capacity and content exactly as they were:
    /// growth is all-or-nothing.
    pub fn plan_growth(&self, n: usize) -> (r: Result<Option<GrowthRequest>, BufferGrowthError>)
        requires
            self.wf(),
        ensures
            r is Err <==> n > MAX_QUADS,
            n > MAX_QUADS ==> r == Err::<Option<GrowthRequest>, BufferGrowthError>(
                BufferGrowthError::CapacityTooLarge,
            ),
            n <= self.cap ==> (r matches Ok(p) && p is None),
            self.cap < n <= MAX_QUADS ==> (r matches Ok(p) && p matches Some(g) && g.wf()
                && g.new_cap == n),
    {
        if n > MAX_QUADS {
            Err(BufferGrowthError::CapacityTooLarge)
        } else if n <= self.cap {
            Ok(None)
        } else {
            Ok(
                Some(
                    GrowthRequest {
                        new_cap: n,
                        vertex_bytes: n * QUAD_VERTEX_BYTES,
                        index_bytes: n * QUAD_INDEX_BYTES,
                        indices: quad_indices(n),
                    },
                ),
            )
        }
    }

    /// Apply a planned growth, after the driver has allocated and filled
    /// the new device buffers.
    pub fn commit_growth(&mut self, request: GrowthRequest)
        requires
            old(self).wf(),
            request.wf(),
            request.new_cap > old(self).cap,
        ensures
            final(self).wf(),
            final(self).cap == request.new_cap,
            final(self).indices == request.indices,
            final(self).vertices@ =~= Seq::new(
                4 * request.new_cap as nat,
                |k: int| Vertex::zeroed_spec(),
            ),
    {
        let vertices = zeroed_vertices(request.new_cap);
        self.cap = request.new_cap;
        self.indices = request.indices;
        self.vertices = vertices;
    }

    /// Write a batch of quads into the vertex buffer: quad `i` occupies
    /// slots `4i .. 4i+4`; slots past the batch keep their old content.
    pub fn write(&mut self, quads: &Vec<TexturedQuad>)
        requires
            old(self).wf(),
            quads@.len() <= old(self).cap,
        ensures
            final(self).wf(),
            final(self).cap == old(self).cap,
            final(self).indices == old(self).indices,
            final(self).vertices@ =~= flat_vertices(quads@) + old(self).vertices@.skip(
                4 * quads@.len() as int,
            ),
    {
        let ghost orig = self.vertices@;
        let mut i: usize = 0;
        while i < quads.len()
            invariant
                old(self).wf(),
                quads@.len() <= old(self).cap,
                i <= quads@.len(),
                self.cap == old(self).cap,
                self.indices == old(self).indices,
                self.vertices@.len() == orig.len(),
                orig == old(self).vertices@,
                forall|k: int| 0 <= k < 4 * i ==> self.vertices@[k] == flat_vertices(quads@)[k],
                forall|k: int| 4 * i <= k < orig.len() ==> self.vertices@[k] == orig[k],
            decreases quads@.len() - i,
        {
            let vs = quads[i].to_vertices();
            let base: usize = 4 * i;
            self.vertices[base] = vs[0];
            self.vertices[base + 1] = vs[1];
            self.vertices[base + 2] = vs[2];
            self.vertices[base + 3] = vs[3];
            proof {
                assert forall|k: int| 4 * i <= k < 4 * (i + 1) implies self.vertices@[k]
                    == flat_vertices(quads@)[k] by {
                    assert(k / 4 == i && k % 4 == k - 4 * i);
                }
            }
            i += 1;
        }
        proof {
            assert(self.vertices@ =~= flat_vertices(quads@) + old(self).vertices@.skip(
                4 * quads@.len() as int,
            ));
        }
    }
}

/// Law: the index buffer for `n` quads decodes to exactly `n` quads, quad
/// `k` referencing the vertex indices `{4k, 4k+1, 4k+2, 4k+2, 4k+3, 4k}`,
/// independent of what resides in the vertex buffer.
pub proof fn lemma_index_pattern_per_quad(n: nat, k: nat)
    requires
        k < n,
        n <= MAX_QUADS,
    ensures
        quad_index_seq(n).len() == 6 * n,
        quad_index_seq(n).subrange(6 * k as int, 6 * k as int + 6) =~= seq![
            (4 * k) as u16,
            (4 * k + 1) as u16,
            (4 * k + 2) as u16,
            (4 * k + 2) as u16,
            (4 * k + 3) as u16,
            (4 * k) as u16,
        ],
{
    assert forall|j: int| 0 <= j < 6 implies quad_index_seq(n)[6 * k + j] == (4 * k
        + index_pattern(j)) as u16 by {
        assert((6 * k + j) / 6 == k && (6 * k + j) % 6 == j);
    }
}

/// The index data for `n` quads: `{0,1,2,2,3,0}` offset by `4k` for quad `k`.
pub fn quad_indices(n: usize) -> (v: Vec<u16>)
    requires
        n <= MAX_QUADS,
    ensures
        v@ == quad_index_seq(n as nat),
{
    let mut v: Vec<u16> = Vec::new();
    let mut i: usize = 0;
    while i < n
        invariant
            i <= n <= MAX_QUADS,
            v@.len() == 6 * i,
            forall|k: int| 0 <= k < 6 * i ==> v@[k] == (4 * (k / 6) + index_pattern(k % 6)) as u16,
        decreases n - i,
    {
        let base: u16 = (i as u16) * 4;
        v.push(base);
        v.push(base + 1);
        v.push(base + 2);
        v.push(base + 2);
        v.push(base + 3);
        v.push(base);
        proof {
            assert forall|k: int| 6 * i <= k < 6 * (i + 1) implies v@[k] == (4 * (k / 6)
                + index_pattern(k % 6)) as u16 by {
                assert(k / 6 == i && k % 6 == k - 6 * i);
            }
        }
        i += 1;
    }
    proof {
        assert(v@ =~= quad_index_seq(n as nat));
    }
    v
}

/// A vertex buffer of `4 * n` zeroed slots, the content of freshly
/// allocated buffers.
fn zeroed_vertices(n: usize) -> (v: Vec<Vertex>)
    requires
        n <= MAX_QUADS,
    ensures
        v@ =~= Seq::new(4 * n as nat, |k: int| Vertex::zeroed_spec()),
{
    let mut v: Vec<Vertex> = Vec::new();
    let mut i: usize = 0;
    while i < 4 * n
        invariant
            i <= 4 * n,
            n <= MAX_QUADS,
            v@.len() == i,
            forall|k: int| 0 <= k < i ==> v@[k] == Vertex::zeroed_spec(),
        decreases 4 * n - i,
    {
        v.push(Vertex::zeroed());
        i += 1;
    }
    v
}

/// One memory type reported by the physical device; `cpu_visible` is
/// whether the host can map it.
#[derive(Debug, Clone, Copy, PartialEq, Eq, Structural)]
pub struct MemoryType {
    pub cpu_visible: bool,
}

/// The first memory type at index `i` or later that the requirement mask
/// admits and the host can map.
pub open spec fn spec_find_memory_type(type_mask: u32, types: Seq<MemoryType>, i: int) -> Option<
    usize,
>
    decreases types.len() - i,
{
    if i < 0 || i >= types.len() {
        None
    } else if (type_mask >> (i as u32)) & 1 == 1 && types[i].cpu_visible {
        Some(i as usize)
    } else {
        spec_find_memory_type(type_mask, types, i + 1)
    }
}

/// Find a memory type compatible with a buffer's requirement mask that is
/// also host-visible: the first index whose bit is set in the mask and whose
/// type the host can map.
pub fn find_memory_type(type_mask: u32, types: &Vec<MemoryType>) -> (r: Option<usize>)
    requires
        types@.len() <= 32,
    ensures
        r == spec_find_memory_type(type_mask, types@, 0),
{
    let mut i: usize = 0;
    while i < types.len()
        invariant
            i <= types@.len() <= 32,
            spec_find_memory_type(type_mask, types@, 0) == spec_find_memory_type(
                type_mask,
                types@,
                i as int,
            ),
        decreases types@.len() - i,
    {
        if (type_mask >> (i as u32)) & 1 == 1 && types[i].cpu_visible {
            return Some(i);
        }
        i += 1;
    }
    None
}

} // verus!
