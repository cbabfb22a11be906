//! Scene geometry: meshes ("layers") of vertices and triangle indices, and their
//! merging into the one vertex stream and the one index stream the renderer
//! draws from.
//!
//! Indices are local to their layer. In the merged index stream each is shifted
//! by the number of vertices of the layers before its own, so that it names the
//! same vertex in the merged vertex stream.

use vstd::prelude::*;

verus! {

/// A vertex. Each coordinate is the IEEE-754 single-precision bit pattern of
/// its value.
#[derive(Clone, Copy, Debug, PartialEq, Eq)]
pub struct Vertex {
    pub position: [u32; 3],
    pub translation: [u32; 3],
}

impl Vertex {
    /// A vertex at `(x, y, z)` with no translation (three times `+0.0`, the
    /// all-zero bit pattern).
    pub fn new(x: u32, y: u32, z: u32) -> (vertex: Vertex)
        ensures
            vertex.position@ == seq![x, y, z],
            vertex.translation@ == seq![0u32, 0u32, 0u32],
    {
        Vertex { position: [x, y, z], translation: [0, 0, 0] }
    }

    /// Sets the translation and leaves the position.
    pub fn with_translation(&mut self, x: u32, y: u32, z: u32) -> (this: &mut Self)
        ensures
            this.translation@ == seq![x, y, z],
            this.position == old(self).position,
            *final(self) == *final(this),
    {
        self.translation = [x, y, z];
        self
    }

    /// Sets the position and leaves the translation.
    pub fn with_position(&mut self, x: u32, y: u32, z: u32) -> (this: &mut Self)
        ensures
            this.position@ == seq![x, y, z],
            this.translation == old(self).translation,
            *final(self) == *final(this),
    {
        self.position = [x, y, z];
        self
    }

    /// Ends a chain of `with_` calls.
    pub fn build(self) -> (vertex: Vertex)
        ensures
            vertex == self,
    {
        self
    }
}

/// One mesh: its vertices, and triangle corners as indices into them.
pub struct Layer {
    pub vertex_buffer: Vec<Vertex>,
    pub index_buffer: Vec<u32>,
}

impl Layer {
    /// Whether every index names a vertex of this layer.
    pub open spec fn indices_in_range(self) -> bool {
        forall|j: int|
            0 <= j < self.index_buffer@.len() ==> (#[trigger] self.index_buffer@[j])
                < self.vertex_buffer@.len()
    }

    pub fn new(vertex_buffer: Vec<Vertex>, index_buffer: Vec<u32>) -> (layer: Layer)
        ensures
            layer.vertex_buffer == vertex_buffer,
            layer.index_buffer == index_buffer,
    {
        Layer { vertex_buffer, index_buffer }
    }
}

/// The number of vertices in all of `layers`.
pub open spec fn vertex_count(layers: Seq<Layer>) -> nat
    decreases layers.len(),
{
    if layers.len() == 0 {
        0
    } else {
        vertex_count(layers.drop_last()) + layers.last().vertex_buffer@.len()
    }
}

/// The number of indices in all of `layers`.
pub open spec fn index_count(layers: Seq<Layer>) -> nat
    decreases layers.len(),
{
    if layers.len() == 0 {
        0
    } else {
        index_count(layers.drop_last()) + layers.last().index_buffer@.len()
    }
}

/// The vertices of `layers`, layer after layer.
pub open spec fn flat_vertices(layers: Seq<Layer>) -> Seq<Vertex>
    decreases layers.len(),
{
    if layers.len() == 0 {
        Seq::empty()
    } else {
        flat_vertices(layers.drop_last()) + layers.last().vertex_buffer@
    }
}

/// `indices`, each moved up by `offset`.
pub open spec fn shifted(indices: Seq<u32>, offset: nat) -> Seq<int> {
    Seq::new(indices.len(), |j: int| indices[j] + offset)
}

/// The indices of `layers`, layer after layer, each moved up by the number of
/// vertices in the layers before its own.
pub open spec fn flat_indices(layers: Seq<Layer>) -> Seq<int>
    decreases layers.len(),
{
    if layers.len() == 0 {
        Seq::empty()
    } else {
        flat_indices(layers.drop_last()) + shifted(
            layers.last().index_buffer@,
            vertex_count(layers.drop_last()),
        )
    }
}

/// Whether `layers` can be merged: every index names a vertex of its own layer,
/// and there are no more vertices than a 32-bit index can tell apart.
pub open spec fn well_formed(layers: Seq<Layer>) -> bool {
    &&& forall|k: int| 0 <= k < layers.len() ==> (#[trigger] layers[k]).indices_in_range()
    &&& vertex_count(layers) <= u32::MAX
}

/// The numbers in `indices`, as mathematical integers.
pub open spec fn as_ints(indices: Seq<u32>) -> Seq<int> {
    Seq::new(indices.len(), |j: int| indices[j] as int)
}

/// The first `k` layers hold no more vertices and indices than all of them.
pub proof fn lemma_counts_grow(layers: Seq<Layer>, k: int)
    requires
        0 <= k <= layers.len(),
    ensures
        vertex_count(layers.take(k)) <= vertex_count(layers),
        index_count(layers.take(k)) <= index_count(layers),
    decreases layers.len(),
{
    if k == layers.len() {
        assert(layers.take(k) =~= layers);
    } else {
        lemma_counts_grow(layers.drop_last(), k);
        assert(layers.drop_last().take(k) =~= layers.take(k));
    }
}

/// Unfolds the merged streams of the first `k + 1` layers into those of the
/// first `k` and layer `k`.
proof fn lemma_take_next(layers: Seq<Layer>, k: int)
    requires
        0 <= k < layers.len(),
    ensures
        vertex_count(layers.take(k + 1)) == vertex_count(layers.take(k))
            + layers[k].vertex_buffer@.len(),
        index_count(layers.take(k + 1)) == index_count(layers.take(k))
            + layers[k].index_buffer@.len(),
        flat_vertices(layers.take(k + 1)) == flat_vertices(layers.take(k))
            + layers[k].vertex_buffer@,
        flat_indices(layers.take(k + 1)) == flat_indices(layers.take(k)) + shifted(
            layers[k].index_buffer@,
            vertex_count(layers.take(k)),
        ),
{
    assert(layers.take(k + 1).drop_last() =~= layers.take(k));
    assert(layers.take(k + 1).last() == layers[k]);
}

/// The merged streams are as long as the layers' streams together.
pub proof fn lemma_flat_lengths(layers: Seq<Layer>)
    ensures
        flat_vertices(layers).len() == vertex_count(layers),
        flat_indices(layers).len() == index_count(layers),
    decreases layers.len(),
{
    if layers.len() > 0 {
        lemma_flat_lengths(layers.drop_last());
    }
}

/// Where layer `k`'s vertex `i` lies in the merged vertex stream: behind all
/// the vertices of the layers before `k`.
pub proof fn lemma_flat_vertex(layers: Seq<Layer>, k: int, i: int)
    requires
        0 <= k < layers.len(),
        0 <= i < layers[k].vertex_buffer@.len(),
    ensures
        vertex_count(layers.take(k)) + i < flat_vertices(layers).len(),
        flat_vertices(layers)[vertex_count(layers.take(k)) + i] == layers[k].vertex_buffer@[i],
    decreases layers.len(),
{
    let earlier = layers.drop_last();
    lemma_flat_lengths(earlier);
    if k == layers.len() - 1 {
        assert(layers.take(k) =~= earlier);
    } else {
        lemma_flat_vertex(earlier, k, i);
        assert(earlier.take(k) =~= layers.take(k));
    }
}

/// What the merged index stream holds for layer `k`'s index number `j`: that
/// index plus the number of vertices in the layers before `k`, at the place
/// behind all the indices of the layers before `k`.
pub proof fn lemma_flat_index(layers: Seq<Layer>, k: int, j: int)
    requires
        0 <= k < layers.len(),
        0 <= j < layers[k].index_buffer@.len(),
    ensures
        index_count(layers.take(k)) + j < flat_indices(layers).len(),
        flat_indices(layers)[index_count(layers.take(k)) + j] == layers[k].index_buffer@[j]
            + vertex_count(layers.take(k)),
    decreases layers.len(),
{
    let earlier = layers.drop_last();
    lemma_flat_lengths(earlier);
    if k == layers.len() - 1 {
        assert(layers.take(k) =~= earlier);
    } else {
        lemma_flat_index(earlier, k, j);
        assert(earlier.take(k) =~= layers.take(k));
    }
}

/// Merging keeps every index pointing at its vertex: where layer `k`'s index
/// number `j` names a vertex of layer `k`, the shifted index in the merged
/// index stream names the same vertex in the merged vertex stream.
pub proof fn lemma_flat_index_names_same_vertex(layers: Seq<Layer>, k: int, j: int)
    requires
        0 <= k < layers.len(),
        0 <= j < layers[k].index_buffer@.len(),
        layers[k].index_buffer@[j] < layers[k].vertex_buffer@.len(),
    ensures
        0 <= flat_indices(layers)[index_count(layers.take(k)) + j] < flat_vertices(layers).len(),
        flat_vertices(layers)[flat_indices(layers)[index_count(layers.take(k)) + j]]
            == layers[k].vertex_buffer@[layers[k].index_buffer@[j] as int],
{
    lemma_flat_index(layers, k, j);
    lemma_flat_vertex(layers, k, layers[k].index_buffer@[j] as int);
}

/// In the merged index stream of well-formed layers every entry names a vertex
/// of the merged vertex stream, and so fits in 32 bits.
pub proof fn lemma_flat_indices_in_range(layers: Seq<Layer>)
    requires
        forall|k: int| 0 <= k < layers.len() ==> (#[trigger] layers[k]).indices_in_range(),
    ensures
        forall|p: int|
            0 <= p < flat_indices(layers).len() ==> 0 <= (#[trigger] flat_indices(layers)[p])
                < vertex_count(layers),
    decreases layers.len(),
{
    if layers.len() > 0 {
        let earlier = layers.drop_last();
        lemma_flat_indices_in_range(earlier);
        lemma_flat_lengths(earlier);
        let last = layers.last();
        assert(last == layers[layers.len() - 1]);
        assert forall|p: int| 0 <= p < flat_indices(layers).len() implies 0 <= (
        #[trigger] flat_indices(layers)[p]) < vertex_count(layers) by {
            if p >= flat_indices(earlier).len() {
                let j = p - flat_indices(earlier).len();
                assert(last.index_buffer@[j] < last.vertex_buffer@.len());
            } else {
                assert(flat_indices(layers)[p] == flat_indices(earlier)[p]);
            }
        }
    }
}

/// The meshes of a scene, in drawing order.
pub struct Layers(pub Vec<Layer>);

impl Default for Layers {
    fn default() -> (layers: Layers)
        ensures
            layers.0@.len() == 0,
    {
        Layers(Vec::new())
    }
}

impl Layers {
    /// Whether these layers can be merged; see [`well_formed`].
    pub open spec fn spec_well_formed(&self) -> bool {
        well_formed(self.0@)
    }

    /// Appends a layer behind those already there.
    pub fn add_layer(&mut self, layer: Layer)
        ensures
            final(self).0@ == old(self).0@.push(layer),
    {
        self.0.push(layer);
    }

    /// The merged vertex stream: the vertices of all layers, layer after layer.
    pub fn to_vertex_buffer(&self) -> (vertices: Vec<Vertex>)
        ensures
            vertices@ == flat_vertices(self.0@),
            vertices@.len() == vertex_count(self.0@),
    {
        let mut vertices: Vec<Vertex> = Vec::new();
        let mut k: usize = 0;
        while k < self.0.len()
            invariant
                k <= self.0@.len(),
                vertices@ == flat_vertices(self.0@.take(k as int)),
            decreases self.0@.len() - k,
        {
            let layer = &self.0[k];
            let mut i: usize = 0;
            while i < layer.vertex_buffer.len()
                invariant
                    i <= layer.vertex_buffer@.len(),
                    vertices@ == flat_vertices(self.0@.take(k as int))
                        + layer.vertex_buffer@.take(i as int),
                decreases layer.vertex_buffer@.len() - i,
            {
                vertices.push(layer.vertex_buffer[i]);
                proof {
                    assert(layer.vertex_buffer@.take(i + 1) =~= layer.vertex_buffer@.take(
                        i as int,
                    ).push(layer.vertex_buffer@[i as int]));
                }
                i += 1;
            }
            proof {
                assert(layer.vertex_buffer@.take(i as int) =~= layer.vertex_buffer@);
                lemma_take_next(self.0@, k as int);
            }
            k += 1;
        }
        proof {
            assert(self.0@.take(k as int) =~= self.0@);
            lemma_flat_lengths(self.0@);
        }
        vertices
    }

    /// The merged index stream: the indices of all layers, layer after layer,
    /// each moved up by the number of vertices in the layers before its own.
    /// `None` if the layers are not well formed, that is if some index names no
    /// vertex of its layer or the vertices are more than a 32-bit index can tell
    /// apart.
    pub fn to_index_buffer(&self) -> (indices: Option<Vec<u32>>)
        ensures
            indices.is_some() <==> self.spec_well_formed(),
            indices matches Some(merged) ==> {
                &&& as_ints(merged@) == flat_indices(self.0@)
                &&& merged@.len() == index_count(self.0@)
                &&& forall|p: int|
                    0 <= p < merged@.len() ==> (#[trigger] merged@[p]) < vertex_count(self.0@)
            },
    {
        let mut merged: Vec<u32> = Vec::new();
        let mut offset: u32 = 0;
        let mut k: usize = 0;
        while k < self.0.len()
            invariant
                k <= self.0@.len(),
                well_formed(self.0@.take(k as int)),
                offset == vertex_count(self.0@.take(k as int)),
                as_ints(merged@) == flat_indices(self.0@.take(k as int)),
            decreases self.0@.len() - k,
        {
            let layer = &self.0[k];
            let room: u32 = u32::MAX - offset;
            proof {
                lemma_take_next(self.0@, k as int);
                lemma_counts_grow(self.0@, k as int + 1);
            }
            if layer.vertex_buffer.len() > room as usize {
                return None;
            }
            let count: u32 = layer.vertex_buffer.len() as u32;
            let mut j: usize = 0;
            while j < layer.index_buffer.len()
                invariant
                    j <= layer.index_buffer@.len(),
                    count == layer.vertex_buffer@.len(),
                    offset + count <= u32::MAX,
                    layer == self.0@[k as int],
                    0 <= k < self.0@.len(),
                    forall|m: int| 0 <= m < j ==> (#[trigger] layer.index_buffer@[m]) < count,
                    as_ints(merged@) == flat_indices(self.0@.take(k as int)) + shifted(
                        layer.index_buffer@,
                        offset as nat,
                    ).take(j as int),
                decreases layer.index_buffer@.len() - j,
            {
                let index: u32 = layer.index_buffer[j];
                if index >= count {
                    proof {
                        assert(!layer.indices_in_range());
                    }
                    return None;
                }
                let ghost shorter = merged@;
                merged.push(index + offset);
                proof {
                    let before = flat_indices(self.0@.take(k as int));
                    let moved = shifted(layer.index_buffer@, offset as nat);
                    assert(moved.take(j + 1) =~= moved.take(j as int).push(index + offset));
                    assert(as_ints(merged@) =~= as_ints(shorter).push(index + offset));
                    assert(as_ints(merged@) =~= before + moved.take(j + 1));
                }
                j += 1;
            }
            proof {
                let moved = shifted(layer.index_buffer@, offset as nat);
                assert(moved.take(j as int) =~= moved);
                assert(layer.indices_in_range());
                assert forall|m: int| 0 <= m < k + 1 implies (#[trigger] self.0@.take(
                    k + 1,
                )[m]).indices_in_range() by {
                    if m < k {
                        assert(self.0@.take(k as int)[m] == self.0@.take(k + 1)[m]);
                    }
                }
            }
            offset = offset + count;
            k += 1;
        }
        proof {
            assert(self.0@.take(k as int) =~= self.0@);
            lemma_flat_lengths(self.0@);
            lemma_flat_indices_in_range(self.0@);
            assert forall|p: int| 0 <= p < merged@.len() implies (#[trigger] merged@[p])
                < vertex_count(self.0@) by {
                assert(as_ints(merged@)[p] == flat_indices(self.0@)[p]);
            }
        }
        Some(merged)
    }
}

} // verus!
