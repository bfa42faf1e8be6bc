//! The per-frame geometry batch.
//!
//! Shapes are appended to one shared pair of vertex and index lists, so that a
//! whole frame is drawn with a single indexed draw call. A shape names its own
//! vertices by local indices, counted from zero; the batch moves them behind
//! the vertices that it already holds. Indices have 16 bits.

use vstd::prelude::*;

verus! {

/// The number of vertices that 16-bit indices can tell apart.
pub const MAX_VERTICES: usize = 0x1_0000;

/// The largest number of indices that one draw call can name.
pub const MAX_INDICES: usize = 0xFFFF_FFFF;

/// The two triangles of a quad whose corners are, in this order, top left,
/// top right, bottom left and bottom right.
pub open spec fn quad_indices() -> Seq<u16> {
    seq![0u16, 2u16, 3u16, 3u16, 1u16, 0u16]
}

/// The local indices of a shape, moved behind `base` earlier vertices.
pub open spec fn offset_indices(local: Seq<u16>, base: int) -> Seq<u16> {
    Seq::new(local.len(), |i: int| (local[i] + base) as u16)
}

/// The bytes of 16-bit values laid out one after the other, two bytes each:
/// the less significant byte first where `low_first`, else the more
/// significant byte first.
pub open spec fn bytes_of_indices(indices: Seq<u16>, low_first: bool) -> Seq<u8> {
    Seq::new(
        2 * indices.len(),
        |k: int|
            if (k % 2 == 0) == low_first {
                (indices[k / 2] % 256) as u8
            } else {
                (indices[k / 2] / 256) as u8
            },
    )
}

/// The memory of a slice of 16-bit values, read byte by byte.
///
/// This is `bytemuck::cast_slice` from `u16` to `u8`. A byte has no alignment
/// to meet and any number of bytes is a whole number of them, so the cast
/// does not fail. The result is the same memory: two bytes for each value, in
/// the byte order of the machine, which is one of the two for all values.
#[verifier::external_body]
fn cast_indices(indices: &[u16]) -> (bytes: &[u8])
    ensures
        bytes@ == bytes_of_indices(indices@, true) || bytes@ == bytes_of_indices(indices@, false),
{
    bytemuck::cast_slice(indices)
}

/// The four corners of a quad.
#[derive(Debug)]
pub struct Quad<V> {
    pub top_left: V,
    pub top_right: V,
    pub bottom_left: V,
    pub bottom_right: V,
}

impl<V> Quad<V> {
    /// The corners in the order in which they are stored.
    pub open spec fn corners(self) -> Seq<V> {
        seq![self.top_left, self.top_right, self.bottom_left, self.bottom_right]
    }
}

/// What a batch holds: the vertices in draw order and the indices into them.
pub struct Geometry<V> {
    pub vertices: Seq<V>,
    pub indices: Seq<u16>,
}

impl<V> Geometry<V> {
    /// The batch with nothing in it.
    pub open spec fn empty() -> Self {
        Geometry { vertices: Seq::empty(), indices: Seq::empty() }
    }

    /// Every index names a vertex of the batch.
    pub open spec fn indexed(self) -> bool {
        forall|i: int| 0 <= i < self.indices.len() ==> self.indices[i] < self.vertices.len()
    }

    /// Every index names a vertex of the batch, and both lists are within
    /// their limits.
    pub open spec fn resolved(self) -> bool {
        &&& self.vertices.len() <= MAX_VERTICES
        &&& self.indices.len() <= MAX_INDICES
        &&& self.indexed()
    }

    /// A shape of `vertex_count` vertices with these local indices can be
    /// told apart from what the batch holds: 16 bits can still name every
    /// vertex afterwards, and each local index names one of the shape's own
    /// vertices.
    pub open spec fn fits(self, vertex_count: nat, indices: Seq<u16>) -> bool {
        &&& self.vertices.len() + vertex_count <= MAX_VERTICES
        &&& forall|i: int| 0 <= i < indices.len() ==> indices[i] < vertex_count
    }

    /// A shape of `vertex_count` vertices with these local indices can be
    /// appended: it fits, and one draw call can still name all indices
    /// afterwards.
    pub open spec fn accepts(self, vertex_count: nat, indices: Seq<u16>) -> bool {
        &&& self.fits(vertex_count, indices)
        &&& self.indices.len() + indices.len() <= MAX_INDICES
    }

    /// The batch with one more shape: its vertices unchanged at the end, its
    /// indices raised by the number of vertices that were there before.
    pub open spec fn push_shape(self, vertices: Seq<V>, indices: Seq<u16>) -> Self {
        Geometry {
            vertices: self.vertices + vertices,
            indices: self.indices + offset_indices(indices, self.vertices.len() as int),
        }
    }

    /// The batch with one more quad.
    pub open spec fn push_quad(self, quad: Quad<V>) -> Self {
        self.push_shape(quad.corners(), quad_indices())
    }

    /// The batch that holds these quads, pushed in order onto the empty batch.
    pub open spec fn of_quads(quads: Seq<Quad<V>>) -> Self
        decreases quads.len(),
    {
        if quads.len() == 0 {
            Self::empty()
        } else {
            Self::of_quads(quads.drop_last()).push_quad(quads.last())
        }
    }
}

/// A growable batch of vertices and 16-bit indices.
pub struct GeometryBuffer<V> {
    vertices: Vec<V>,
    indices: Vec<u16>,
}

impl<V> View for GeometryBuffer<V> {
    type V = Geometry<V>;

    closed spec fn view(&self) -> Geometry<V> {
        Geometry { vertices: self.vertices@, indices: self.indices@ }
    }
}

impl<V> GeometryBuffer<V> {
    #[verifier::type_invariant]
    spec fn inv(self) -> bool {
        self@.resolved()
    }
}

impl<V: Copy> GeometryBuffer<V> {
    /// An empty batch.
    pub fn new() -> (buffer: Self)
        ensures
            buffer@ == Geometry::<V>::empty(),
    {
        GeometryBuffer { vertices: Vec::new(), indices: Vec::new() }
    }

    /// The vertices, in draw order.
    pub fn vertices(&self) -> (vertices: &[V])
        ensures
            vertices@ == self@.vertices,
            vertices@.len() <= MAX_VERTICES,
    {
        proof {
            use_type_invariant(self);
        }
        self.vertices.as_slice()
    }

    /// The indices. Each of them names a vertex of the batch.
    pub fn indices(&self) -> (indices: &[u16])
        ensures
            indices@ == self@.indices,
            self@.resolved(),
    {
        proof {
            use_type_invariant(self);
        }
        self.indices.as_slice()
    }

    /// The indices as the bytes that go to the GPU: two for each index, in the
    /// byte order of the machine.
    pub fn index_bytes(&self) -> (bytes: &[u8])
        ensures
            bytes@.len() == 2 * self@.indices.len(),
            bytes@ == bytes_of_indices(self@.indices, true) || bytes@ == bytes_of_indices(
                self@.indices,
                false,
            ),
            self@.resolved(),
    {
        proof {
            use_type_invariant(self);
        }
        cast_indices(self.indices.as_slice())
    }

    /// Whether a shape of `vertex_count` vertices with these local indices can
    /// be appended.
    pub fn accepts(&self, vertex_count: usize, indices: &[u16]) -> (fits: bool)
        ensures
            fits == self@.accepts(vertex_count as nat, indices@),
    {
        proof {
            use_type_invariant(self);
        }
        if vertex_count > MAX_VERTICES - self.vertices.len() {
            return false;
        }
        if indices.len() > MAX_INDICES - self.indices.len() {
            return false;
        }
        let mut i: usize = 0;
        while i < indices.len()
            invariant
                i <= indices.len(),
                forall|k: int| 0 <= k < i ==> indices@[k] < vertex_count,
            decreases indices.len() - i,
        {
            if indices[i] as usize >= vertex_count {
                return false;
            }
            i = i + 1;
        }
        true
    }

    /// Appends a shape: the vertices as they are, and each local index raised
    /// by the number of vertices that the batch held before.
    pub fn push_shape(&mut self, vertices: &[V], indices: &[u16])
        requires
            old(self)@.accepts(vertices@.len(), indices@),
        ensures
            final(self)@ == old(self)@.push_shape(vertices@, indices@),
            final(self)@.resolved(),
    {
        proof {
            use_type_invariant(&*self);
        }
        let mut all_indices: Vec<u16> = Vec::new();
        let mut all_vertices: Vec<V> = Vec::new();
        core::mem::swap(&mut all_indices, &mut self.indices);
        core::mem::swap(&mut all_vertices, &mut self.vertices);
        let ghost before = Geometry { vertices: all_vertices@, indices: all_indices@ };
        let base: usize = all_vertices.len();
        let mut i: usize = 0;
        while i < indices.len()
            invariant
                i <= indices.len(),
                base == before.vertices.len(),
                before.accepts(vertices@.len(), indices@),
                all_indices@ == before.indices + offset_indices(indices@, base as int).take(i as int),
            decreases indices.len() - i,
        {
            let index: u16 = (indices[i] as usize + base) as u16;
            all_indices.push(index);
            i = i + 1;
            assert(all_indices@ =~= before.indices + offset_indices(
                indices@,
                base as int,
            ).take(i as int));
        }
        assert(all_indices@ =~= before.indices + offset_indices(indices@, base as int));
        let mut j: usize = 0;
        while j < vertices.len()
            invariant
                j <= vertices.len(),
                all_vertices@ == before.vertices + vertices@.take(j as int),
            decreases vertices.len() - j,
        {
            all_vertices.push(vertices[j]);
            j = j + 1;
            assert(all_vertices@ =~= before.vertices + vertices@.take(j as int));
        }
        assert(all_vertices@ =~= before.vertices + vertices@);
        core::mem::swap(&mut all_vertices, &mut self.vertices);
        core::mem::swap(&mut all_indices, &mut self.indices);
    }

    /// Whether one more quad can be appended.
    pub fn accepts_quad(&self) -> (fits: bool)
        ensures
            fits == self@.accepts(4, quad_indices()),
    {
        proof {
            use_type_invariant(self);
        }
        self.vertices.len() <= MAX_VERTICES - 4 && self.indices.len() <= MAX_INDICES - 6
    }

    /// Appends a quad as two triangles in the fixed winding order.
    pub fn push_quad(&mut self, quad: Quad<V>)
        requires
            old(self)@.accepts(4, quad_indices()),
        ensures
            final(self)@ == old(self)@.push_quad(quad),
            final(self)@.resolved(),
    {
        let corners: [V; 4] = [quad.top_left, quad.top_right, quad.bottom_left, quad.bottom_right];
        let winding: [u16; 6] = [0, 2, 3, 3, 1, 0];
        assert(corners@ =~= quad.corners());
        assert(winding@ =~= quad_indices());
        self.push_shape(corners.as_slice(), winding.as_slice());
    }

    /// Empties the batch. The storage of both lists is kept for the next frame.
    pub fn clear(&mut self)
        ensures
            final(self)@ == Geometry::<V>::empty(),
    {
        proof {
            use_type_invariant(&*self);
        }
        let mut indices: Vec<u16> = Vec::new();
        let mut vertices: Vec<V> = Vec::new();
        core::mem::swap(&mut indices, &mut self.indices);
        core::mem::swap(&mut vertices, &mut self.vertices);
        indices.clear();
        vertices.clear();
        core::mem::swap(&mut vertices, &mut self.vertices);
        core::mem::swap(&mut indices, &mut self.indices);
    }
}

/// Where every index of a batch names one of its vertices, and a shape fits,
/// every index names a vertex after the shape is appended, too. Appending
/// leaves what the batch held in place, and every index of the new shape
/// names, in the shared vertex list, the vertex that it named among the
/// shape's own.
pub proof fn lemma_push_shape_resolves<V>(batch: Geometry<V>, vertices: Seq<V>, indices: Seq<u16>)
    requires
        batch.indexed(),
        batch.fits(vertices.len(), indices),
    ensures
        batch.push_shape(vertices, indices).indexed(),
        batch.resolved() && batch.accepts(vertices.len(), indices) ==> batch.push_shape(
            vertices,
            indices,
        ).resolved(),
        batch.push_shape(vertices, indices).vertices.len() == batch.vertices.len() + vertices.len(),
        batch.push_shape(vertices, indices).indices.len() == batch.indices.len() + indices.len(),
        forall|i: int|
            0 <= i < batch.vertices.len() ==> batch.push_shape(vertices, indices).vertices[i]
                == batch.vertices[i],
        forall|i: int|
            0 <= i < batch.indices.len() ==> batch.push_shape(vertices, indices).indices[i]
                == batch.indices[i],
        forall|i: int|
            #![trigger indices[i]]
            0 <= i < indices.len() ==> {
                let after = batch.push_shape(vertices, indices);
                let shared = after.indices[batch.indices.len() + i];
                &&& shared == batch.vertices.len() + indices[i]
                &&& after.vertices[shared as int] == vertices[indices[i] as int]
            },
{
}

/// A quad appended to any batch that has room for four more vertices adds
/// those four vertices and six indices: the fixed winding order 0, 2, 3, 3,
/// 1, 0, raised by the number of vertices that the batch held. Each of the six
/// names that corner of the quad. Where the batch held a multiple of four
/// vertices, as after quads only, each of the six, taken modulo four, is the
/// winding order itself.
pub proof fn lemma_pushed_quad_winding<V>(batch: Geometry<V>, quad: Quad<V>, corner: int)
    requires
        batch.vertices.len() + 4 <= MAX_VERTICES,
        0 <= corner < 6,
    ensures
        batch.push_quad(quad).vertices.len() == batch.vertices.len() + 4,
        batch.push_quad(quad).indices.len() == batch.indices.len() + 6,
        batch.push_quad(quad).indices[batch.indices.len() + corner] == batch.vertices.len()
            + quad_indices()[corner],
        batch.push_quad(quad).vertices[batch.push_quad(quad).indices[batch.indices.len()
            + corner] as int] == quad.corners()[quad_indices()[corner] as int],
        batch.vertices.len() % 4 == 0 ==> batch.push_quad(quad).indices[batch.indices.len()
            + corner] % 4 == quad_indices()[corner],
        batch.indexed() ==> batch.push_quad(quad).indexed(),
{
    assert(quad_indices()[corner] < 4);
    assert(batch.fits(4, quad_indices()));
    if batch.indexed() {
        lemma_push_shape_resolves(batch, quad.corners(), quad_indices());
    }
}

/// Pushing a quad onto the batch of some quads gives the batch of those quads
/// and the new one.
pub proof fn lemma_of_quads_push<V>(quads: Seq<Quad<V>>, quad: Quad<V>)
    ensures
        Geometry::of_quads(quads.push(quad)) == Geometry::of_quads(quads).push_quad(quad),
{
    assert(quads.push(quad).drop_last() =~= quads);
}

/// After any number of quads, pushed one after the other onto the empty batch,
/// the batch holds four vertices and six indices for each of them, and every
/// index names one of those vertices. Each of the pushes was one that the
/// batch accepts. The number of quads is limited by what 16-bit indices can
/// name.
pub proof fn lemma_quads_fill_batch<V>(quads: Seq<Quad<V>>)
    requires
        4 * quads.len() <= MAX_VERTICES,
    ensures
        Geometry::of_quads(quads).vertices.len() == 4 * quads.len(),
        Geometry::of_quads(quads).indices.len() == 6 * quads.len(),
        forall|i: int|
            0 <= i < 6 * quads.len() ==> Geometry::of_quads(quads).indices[i] < 4 * quads.len(),
        Geometry::of_quads(quads).resolved(),
        quads.len() > 0 ==> Geometry::of_quads(quads.drop_last()).accepts(4, quad_indices()),
    decreases quads.len(),
{
    if quads.len() > 0 {
        let earlier = Geometry::of_quads(quads.drop_last());
        lemma_quads_fill_batch(quads.drop_last());
        lemma_push_shape_resolves(earlier, quads.last().corners(), quad_indices());
    }
}

/// The six indices of the quad at position `shape` are the fixed winding
/// order 0, 2, 3, 3, 1, 0, raised by the four vertices of each earlier quad;
/// so each of them, taken modulo four, is the local index, and it names that
/// corner of that quad in the shared vertex list.
pub proof fn lemma_quad_winding<V>(quads: Seq<Quad<V>>, shape: int, corner: int)
    requires
        4 * quads.len() <= MAX_VERTICES,
        0 <= shape < quads.len(),
        0 <= corner < 6,
    ensures
        Geometry::of_quads(quads).indices[6 * shape + corner] == 4 * shape + quad_indices()[corner],
        Geometry::of_quads(quads).indices[6 * shape + corner] % 4 == quad_indices()[corner],
        Geometry::of_quads(quads).vertices[Geometry::of_quads(quads).indices[6 * shape
            + corner] as int] == quads[shape].corners()[quad_indices()[corner] as int],
    decreases quads.len(),
{
    let earlier = Geometry::of_quads(quads.drop_last());
    lemma_quads_fill_batch(quads.drop_last());
    lemma_push_shape_resolves(earlier, quads.last().corners(), quad_indices());
    if shape < quads.len() - 1 {
        lemma_quad_winding(quads.drop_last(), shape, corner);
    } else {
        assert(quad_indices()[corner] < 4);
    }
}

} // verus!
