//! Packing of externally parsed mesh primitives into shared geometry buffers.
//!
//! Positions and normals are carried as the bit patterns of their
//! single-precision coordinates, exactly the bytes the GPU reads.

use vstd::prelude::*;
use crate::bounds::{AABB, min_key, max_key, lemma_keys_concat};

verus! {

/// Bytes of one position or normal (three 32-bit coordinates).
pub const VERTEX_STRIDE: u64 = 12;

/// Bytes of one index.
pub const INDEX_STRIDE: u64 = 4;

/// Where one primitive's geometry sits in the shared buffers, in elements.
#[derive(Clone, Copy, Debug, PartialEq, Eq)]
pub struct MeshPrimitive {
    pub vertex_offset: u64,
    pub index_offset: u64,
    pub index_count: u64,
}

/// One indexed draw: the byte offsets at which a primitive's vertex data and
/// indices start in the shared buffers, and how many indices it draws.
#[derive(Clone, Copy, Debug, PartialEq, Eq)]
pub struct DrawCall {
    pub vertex_buffer_offset: u64,
    pub index_count: u64,
    pub index_buffer_offset: u64,
}

/// One primitive as the scene parser hands it over: primitive-local triangle
/// indices and index-aligned positions and normals.
#[derive(Debug)]
pub struct PrimitiveGeometry {
    pub indices: Vec<u32>,
    pub positions: Vec<[u32; 3]>,
    pub normals: Vec<[u32; 3]>,
}

/// Number of indices of the first `k` primitives.
pub open spec fn index_sum(prims: Seq<PrimitiveGeometry>, k: int) -> int
    decreases k,
{
    if k <= 0 {
        0
    } else {
        index_sum(prims, k - 1) + prims[k - 1].indices@.len()
    }
}

/// Number of vertices of the first `k` primitives.
pub open spec fn vertex_sum(prims: Seq<PrimitiveGeometry>, k: int) -> int
    decreases k,
{
    if k <= 0 {
        0
    } else {
        vertex_sum(prims, k - 1) + prims[k - 1].positions@.len()
    }
}

/// The positions of the first `k` primitives, one after another.
pub open spec fn positions_of(prims: Seq<PrimitiveGeometry>, k: int) -> Seq<[u32; 3]>
    decreases k,
{
    if k <= 0 {
        Seq::empty()
    } else {
        positions_of(prims, k - 1) + prims[k - 1].positions@
    }
}

/// The normals of the first `k` primitives, one after another.
pub open spec fn normals_of(prims: Seq<PrimitiveGeometry>, k: int) -> Seq<[u32; 3]>
    decreases k,
{
    if k <= 0 {
        Seq::empty()
    } else {
        normals_of(prims, k - 1) + prims[k - 1].normals@
    }
}

/// The indices of the first `k` primitives, one after another.
pub open spec fn indices_of(prims: Seq<PrimitiveGeometry>, k: int) -> Seq<u32>
    decreases k,
{
    if k <= 0 {
        Seq::empty()
    } else {
        indices_of(prims, k - 1) + prims[k - 1].indices@
    }
}

/// Sum of the index counts of the first `k` recorded primitives.
pub open spec fn recorded_index_sum(prims: Seq<MeshPrimitive>, k: int) -> int
    decreases k,
{
    if k <= 0 {
        0
    } else {
        recorded_index_sum(prims, k - 1) + prims[k - 1].index_count
    }
}

/// Shared position, normal and index buffers built from a list of primitives,
/// with the per-primitive offsets and the bounds of every position.
pub struct MeshIngestor {
    positions: Vec<[u32; 3]>,
    normals: Vec<[u32; 3]>,
    indices: Vec<u32>,
    primitives: Vec<MeshPrimitive>,
    bounds: AABB,
}

impl MeshIngestor {
    /// Buffers and offsets agree: each primitive starts where the previous
    /// one ended, normals stay aligned with positions, and the buffers' byte
    /// sizes fit a `u64`.
    pub closed spec fn wf(&self) -> bool {
        &&& self.normals@.len() == self.positions@.len()
        &&& self.indices@.len() == recorded_index_sum(self.primitives@, self.primitives@.len() as int)
        &&& forall|k: int|
            0 <= k < self.primitives@.len() ==> {
                &&& (#[trigger] self.primitives@[k]).index_offset == recorded_index_sum(self.primitives@, k)
                &&& self.primitives@[k].vertex_offset <= self.positions@.len()
                &&& self.primitives@[k].index_offset + self.primitives@[k].index_count
                    <= self.indices@.len()
            }
        &&& self.positions@.len() * VERTEX_STRIDE <= u64::MAX
        &&& self.indices@.len() * INDEX_STRIDE <= u64::MAX
    }

    pub closed spec fn spec_positions(&self) -> Seq<[u32; 3]> {
        self.positions@
    }

    pub closed spec fn spec_normals(&self) -> Seq<[u32; 3]> {
        self.normals@
    }

    pub closed spec fn spec_indices(&self) -> Seq<u32> {
        self.indices@
    }

    pub closed spec fn spec_primitives(&self) -> Seq<MeshPrimitive> {
        self.primitives@
    }

    pub closed spec fn spec_bounds(&self) -> AABB {
        self.bounds
    }
}

impl MeshIngestor {
    /// No geometry yet, and the empty box.
    pub fn new() -> (m: MeshIngestor)
        ensures
            m.wf(),
            m.spec_positions().len() == 0,
            m.spec_normals().len() == 0,
            m.spec_indices().len() == 0,
            m.spec_primitives().len() == 0,
            m.spec_bounds().is_empty_box(),
    {
        MeshIngestor {
            positions: Vec::new(),
            normals: Vec::new(),
            indices: Vec::new(),
            primitives: Vec::new(),
            bounds: AABB::empty(),
        }
    }

    /// Appends one primitive: records where its geometry starts, appends its
    /// indices (left primitive-local), positions and normals, and grows the
    /// bounds by each of its positions.
    pub fn ingest(&mut self, prim: &PrimitiveGeometry)
        requires
            old(self).wf(),
            prim.normals@.len() == prim.positions@.len(),
            (old(self).spec_positions().len() + prim.positions@.len()) * VERTEX_STRIDE <= u64::MAX,
            (old(self).spec_indices().len() + prim.indices@.len()) * INDEX_STRIDE <= u64::MAX,
        ensures
            final(self).wf(),
            final(self).spec_primitives() == old(self).spec_primitives().push(
                (MeshPrimitive {
                    vertex_offset: old(self).spec_positions().len() as u64,
                    index_offset: old(self).spec_indices().len() as u64,
                    index_count: prim.indices@.len() as u64,
                }),
            ),
            final(self).spec_indices() == old(self).spec_indices() + prim.indices@,
            final(self).spec_positions() == old(self).spec_positions() + prim.positions@,
            final(self).spec_normals() == old(self).spec_normals() + prim.normals@,
            forall|a: int|
                0 <= a < 3 ==> {
                    &&& final(self).spec_bounds().min[a] == min_key(
                        prim.positions@,
                        a,
                        old(self).spec_bounds().min[a] as int,
                    )
                    &&& final(self).spec_bounds().max[a] == max_key(
                        prim.positions@,
                        a,
                        old(self).spec_bounds().max[a] as int,
                    )
                },
    {
        let ghost old_prims = self.primitives@;
        let record = MeshPrimitive {
            vertex_offset: self.positions.len() as u64,
            index_offset: self.indices.len() as u64,
            index_count: prim.indices.len() as u64,
        };
        self.primitives.push(record);
        proof {
            assert(recorded_index_sum(self.primitives@, old_prims.len() as int)
                == recorded_index_sum(old_prims, old_prims.len() as int)) by {
                lemma_recorded_prefix(old_prims, self.primitives@, old_prims.len() as int);
            }
            assert forall|k: int| 0 <= k < old_prims.len() implies recorded_index_sum(self.primitives@, k)
                == recorded_index_sum(old_prims, k) by {
                lemma_recorded_prefix(old_prims, self.primitives@, k);
            }
        }
        let ghost old_indices = self.indices@;
        let ghost prims_now = self.primitives@;
        let ghost positions_now = self.positions@;
        let ghost normals_now = self.normals@;
        let ghost bounds_now = self.bounds;
        let mut i: usize = 0;
        while i < prim.indices.len()
            invariant
                i <= prim.indices@.len(),
                self.primitives@ == prims_now,
                self.positions@ == positions_now,
                self.normals@ == normals_now,
                self.bounds == bounds_now,
                self.indices@ == old_indices + prim.indices@.take(i as int),
            decreases prim.indices@.len() - i,
        {
            self.indices.push(prim.indices[i]);
            i = i + 1;
            proof {
                assert(self.indices@ =~= old_indices + prim.indices@.take(i as int));
            }
        }
        proof {
            assert(prim.indices@.take(i as int) =~= prim.indices@);
        }
        let ghost old_positions = self.positions@;
        let ghost old_normals = self.normals@;
        let mut j: usize = 0;
        while j < prim.positions.len()
            invariant
                j <= prim.positions@.len(),
                self.primitives@ == prims_now,
                self.indices@ == old_indices + prim.indices@,
                self.bounds == bounds_now,
                prim.normals@.len() == prim.positions@.len(),
                self.positions@ == old_positions + prim.positions@.take(j as int),
                self.normals@ == old_normals + prim.normals@.take(j as int),
            decreases prim.positions@.len() - j,
        {
            self.positions.push(prim.positions[j]);
            self.normals.push(prim.normals[j]);
            j = j + 1;
            proof {
                assert(self.positions@ =~= old_positions + prim.positions@.take(j as int));
                assert(self.normals@ =~= old_normals + prim.normals@.take(j as int));
            }
        }
        proof {
            assert(prim.positions@.take(j as int) =~= prim.positions@);
            assert(prim.normals@.take(j as int) =~= prim.normals@);
        }
        self.bounds.union_all(&prim.positions);
    }
}

impl MeshIngestor {
    /// Ingests every primitive in order, starting from empty buffers.
    pub fn ingest_all(prims: &Vec<PrimitiveGeometry>) -> (m: MeshIngestor)
        requires
            forall|k: int|
                0 <= k < prims@.len() ==> (#[trigger] prims@[k]).normals@.len()
                    == prims@[k].positions@.len(),
            positions_of(prims@, prims@.len() as int).len() * VERTEX_STRIDE <= u64::MAX,
            index_sum(prims@, prims@.len() as int) * INDEX_STRIDE <= u64::MAX,
        ensures
            m.wf(),
            m.spec_positions() == positions_of(prims@, prims@.len() as int),
            m.spec_normals() == normals_of(prims@, prims@.len() as int),
            m.spec_indices() == indices_of(prims@, prims@.len() as int),
            m.spec_indices().len() == index_sum(prims@, prims@.len() as int),
            m.spec_primitives().len() == prims@.len(),
            forall|k: int|
                0 <= k < prims@.len() ==> #[trigger] m.spec_primitives()[k] == (MeshPrimitive {
                    vertex_offset: positions_of(prims@, k).len() as u64,
                    index_offset: index_sum(prims@, k) as u64,
                    index_count: prims@[k].indices@.len() as u64,
                }),
            forall|a: int|
                0 <= a < 3 ==> {
                    &&& m.spec_bounds().min[a] == min_key(
                        positions_of(prims@, prims@.len() as int),
                        a,
                        i32::MAX as int,
                    )
                    &&& m.spec_bounds().max[a] == max_key(
                        positions_of(prims@, prims@.len() as int),
                        a,
                        i32::MIN as int,
                    )
                },
    {
        let mut m = MeshIngestor::new();
        let n = prims.len();
        let mut k: usize = 0;
        proof {
            assert(m.spec_positions() =~= positions_of(prims@, 0));
            assert(m.spec_normals() =~= normals_of(prims@, 0));
            assert(m.spec_indices() =~= indices_of(prims@, 0));
        }
        while k < n
            invariant
                n == prims@.len(),
                k <= n,
                forall|i: int|
                    0 <= i < prims@.len() ==> (#[trigger] prims@[i]).normals@.len()
                        == prims@[i].positions@.len(),
                positions_of(prims@, n as int).len() * VERTEX_STRIDE <= u64::MAX,
                index_sum(prims@, n as int) * INDEX_STRIDE <= u64::MAX,
                m.wf(),
                m.spec_positions() == positions_of(prims@, k as int),
                m.spec_normals() == normals_of(prims@, k as int),
                m.spec_indices() == indices_of(prims@, k as int),
                m.spec_primitives().len() == k,
                forall|i: int|
                    0 <= i < k ==> #[trigger] m.spec_primitives()[i] == (MeshPrimitive {
                        vertex_offset: positions_of(prims@, i).len() as u64,
                        index_offset: index_sum(prims@, i) as u64,
                        index_count: prims@[i].indices@.len() as u64,
                    }),
                forall|a: int|
                    0 <= a < 3 ==> {
                        &&& m.spec_bounds().min[a] == min_key(
                            positions_of(prims@, k as int),
                            a,
                            i32::MAX as int,
                        )
                        &&& m.spec_bounds().max[a] == max_key(
                            positions_of(prims@, k as int),
                            a,
                            i32::MIN as int,
                        )
                    },
            decreases n - k,
        {
            proof {
                lemma_prefix_sizes(prims@, k + 1, n as int);
                lemma_index_count(prims@, k as int);
                assert forall|a: int| 0 <= a < 3 implies {
                    &&& min_key(positions_of(prims@, k + 1), a, i32::MAX as int) == min_key(
                        prims@[k as int].positions@,
                        a,
                        min_key(positions_of(prims@, k as int), a, i32::MAX as int),
                    )
                    &&& max_key(positions_of(prims@, k + 1), a, i32::MIN as int) == max_key(
                        prims@[k as int].positions@,
                        a,
                        max_key(positions_of(prims@, k as int), a, i32::MIN as int),
                    )
                } by {
                    lemma_keys_concat(
                        positions_of(prims@, k as int),
                        prims@[k as int].positions@,
                        a,
                        i32::MAX as int,
                        i32::MIN as int,
                    );
                }
            }
            m.ingest(&prims[k]);
            k = k + 1;
        }
        proof {
            lemma_index_count(prims@, n as int);
        }
        m
    }
}

impl MeshIngestor {
    /// The packed positions.
    pub fn positions(&self) -> (r: &Vec<[u32; 3]>)
        ensures
            r@ == self.spec_positions(),
    {
        &self.positions
    }

    /// The packed normals, aligned with the positions.
    pub fn normals(&self) -> (r: &Vec<[u32; 3]>)
        ensures
            r@ == self.spec_normals(),
    {
        &self.normals
    }

    /// The packed primitive-local indices.
    pub fn indices(&self) -> (r: &Vec<u32>)
        ensures
            r@ == self.spec_indices(),
    {
        &self.indices
    }

    /// Where each primitive sits in the buffers, in ingestion order.
    pub fn primitives(&self) -> (r: &Vec<MeshPrimitive>)
        ensures
            r@ == self.spec_primitives(),
    {
        &self.primitives
    }

    /// The bounds of every ingested position.
    pub fn bounds(&self) -> (r: AABB)
        ensures
            r == self.spec_bounds(),
    {
        self.bounds
    }

    /// Byte size of the position buffer (the normal buffer has the same size).
    pub fn vertex_bytes(&self) -> (r: u64)
        requires
            self.wf(),
        ensures
            r == self.spec_positions().len() * VERTEX_STRIDE,
    {
        self.positions.len() as u64 * VERTEX_STRIDE
    }

    /// Byte size of the index buffer.
    pub fn index_bytes(&self) -> (r: u64)
        requires
            self.wf(),
        ensures
            r == self.spec_indices().len() * INDEX_STRIDE,
    {
        self.indices.len() as u64 * INDEX_STRIDE
    }

    /// One indexed draw per primitive, in order, at the primitive's recorded
    /// offsets turned into bytes.
    pub fn draw_calls(&self) -> (r: Vec<DrawCall>)
        requires
            self.wf(),
        ensures
            r@.len() == self.spec_primitives().len(),
            forall|k: int|
                0 <= k < r@.len() ==> #[trigger] r@[k] == (DrawCall {
                    vertex_buffer_offset: (self.spec_primitives()[k].vertex_offset * VERTEX_STRIDE) as u64,
                    index_count: self.spec_primitives()[k].index_count,
                    index_buffer_offset: (self.spec_primitives()[k].index_offset * INDEX_STRIDE) as u64,
                }),
    {
        let mut calls: Vec<DrawCall> = Vec::new();
        let mut k: usize = 0;
        while k < self.primitives.len()
            invariant
                self.wf(),
                k <= self.primitives@.len(),
                calls@.len() == k,
                forall|i: int|
                    0 <= i < k ==> #[trigger] calls@[i] == (DrawCall {
                        vertex_buffer_offset: (self.primitives@[i].vertex_offset * VERTEX_STRIDE) as u64,
                        index_count: self.primitives@[i].index_count,
                        index_buffer_offset: (self.primitives@[i].index_offset * INDEX_STRIDE) as u64,
                    }),
            decreases self.primitives@.len() - k,
        {
            let p = self.primitives[k];
            assert(self.primitives@[k as int] == p);
            calls.push(
                DrawCall {
                    vertex_buffer_offset: p.vertex_offset * VERTEX_STRIDE,
                    index_count: p.index_count,
                    index_buffer_offset: p.index_offset * INDEX_STRIDE,
                },
            );
            k = k + 1;
        }
        calls
    }
}

/// The buffers of a prefix of the primitives are no larger than those of
/// a longer prefix.
proof fn lemma_prefix_sizes(prims: Seq<PrimitiveGeometry>, j: int, k: int)
    requires
        0 <= j <= k <= prims.len(),
    ensures
        positions_of(prims, j).len() <= positions_of(prims, k).len(),
        index_sum(prims, j) <= index_sum(prims, k),
    decreases k - j,
{
    if j < k {
        lemma_prefix_sizes(prims, j, k - 1);
    }
}

/// The concatenated indices of a prefix have as many entries as its counts add up to.
proof fn lemma_index_count(prims: Seq<PrimitiveGeometry>, k: int)
    requires
        0 <= k <= prims.len(),
    ensures
        indices_of(prims, k).len() == index_sum(prims, k),
    decreases k,
{
    if k > 0 {
        lemma_index_count(prims, k - 1);
    }
}

/// Index ranges of ingested primitives follow one another: the range of
/// primitive `j` ends at or before the offset of any later primitive `k`, so
/// the ranges never overlap, and a primitive with at least one index starts
/// strictly before every later one.
pub proof fn lemma_index_offsets(prims: Seq<PrimitiveGeometry>, j: int, k: int)
    requires
        0 <= j < k <= prims.len(),
    ensures
        index_sum(prims, j) + prims[j].indices@.len() <= index_sum(prims, k),
        prims[j].indices@.len() > 0 ==> index_sum(prims, j) < index_sum(prims, k),
{
    lemma_prefix_sizes(prims, j + 1, k);
}

/// Sums over a prefix do not see what is pushed after it.
proof fn lemma_recorded_prefix(s: Seq<MeshPrimitive>, t: Seq<MeshPrimitive>, k: int)
    requires
        0 <= k <= s.len(),
        s.len() <= t.len(),
        forall|i: int| 0 <= i < s.len() ==> t[i] == s[i],
    ensures
        recorded_index_sum(t, k) == recorded_index_sum(s, k),
    decreases k,
{
    if k > 0 {
        lemma_recorded_prefix(s, t, k - 1);
    }
}

} // verus!
