//! The application: the scene it shows and the loop that drives it.

use vstd::prelude::*;

use crate::layer::{Layer, Layers, Vertex};

pub mod context;

verus! {

/// The title of the application's window.
pub const WINDOW_TITLE: &'static str = "Erbium";

/// The bit pattern of `0.0`.
pub const ZERO: u32 = 0;

/// The bit pattern of `0.5`.
pub const HALF: u32 = 0x3F00_0000;

/// The bit pattern of `-0.5`.
pub const MINUS_HALF: u32 = 0xBF00_0000;

/// Whether `vertex` lies at `(x, y, z)`, untranslated.
pub open spec fn lies_at(vertex: Vertex, x: u32, y: u32, z: u32) -> bool {
    vertex.position@ == seq![x, y, z] && vertex.translation@ == seq![ZERO, ZERO, ZERO]
}

/// Whether `layer` is the pyramid: an apex over a square base, four sides and
/// the base in two triangles.
pub open spec fn is_pyramid(layer: Layer) -> bool {
    &&& layer.vertex_buffer@.len() == 5
    &&& lies_at(layer.vertex_buffer@[0], ZERO, HALF, ZERO)
    &&& lies_at(layer.vertex_buffer@[1], MINUS_HALF, MINUS_HALF, HALF)
    &&& lies_at(layer.vertex_buffer@[2], HALF, MINUS_HALF, HALF)
    &&& lies_at(layer.vertex_buffer@[3], HALF, MINUS_HALF, MINUS_HALF)
    &&& lies_at(layer.vertex_buffer@[4], MINUS_HALF, MINUS_HALF, MINUS_HALF)
    &&& layer.index_buffer@ == seq![
        0u32,
        1,
        2,
        0,
        2,
        3,
        0,
        3,
        4,
        0,
        4,
        1,
        1,
        2,
        3,
        1,
        3,
        4,
    ]
}

/// Whether `layer` is the single triangle: the pyramid's front side.
pub open spec fn is_triangle(layer: Layer) -> bool {
    &&& layer.vertex_buffer@.len() == 3
    &&& lies_at(layer.vertex_buffer@[0], ZERO, HALF, ZERO)
    &&& lies_at(layer.vertex_buffer@[1], MINUS_HALF, MINUS_HALF, HALF)
    &&& lies_at(layer.vertex_buffer@[2], HALF, MINUS_HALF, HALF)
    &&& layer.index_buffer@ == seq![0u32, 1, 2]
}

/// The pyramid.
pub fn pyramid() -> (layer: Layer)
    ensures
        is_pyramid(layer),
        layer.indices_in_range(),
{
    let mut vertices: Vec<Vertex> = Vec::new();
    vertices.push(Vertex::new(ZERO, HALF, ZERO));
    vertices.push(Vertex::new(MINUS_HALF, MINUS_HALF, HALF));
    vertices.push(Vertex::new(HALF, MINUS_HALF, HALF));
    vertices.push(Vertex::new(HALF, MINUS_HALF, MINUS_HALF));
    vertices.push(Vertex::new(MINUS_HALF, MINUS_HALF, MINUS_HALF));
    let indices: Vec<u32> = vec![0, 1, 2, 0, 2, 3, 0, 3, 4, 0, 4, 1, 1, 2, 3, 1, 3, 4];
    Layer::new(vertices, indices)
}

/// The single triangle.
pub fn triangle() -> (layer: Layer)
    ensures
        is_triangle(layer),
        layer.indices_in_range(),
{
    let mut vertices: Vec<Vertex> = Vec::new();
    vertices.push(Vertex::new(ZERO, HALF, ZERO));
    vertices.push(Vertex::new(MINUS_HALF, MINUS_HALF, HALF));
    vertices.push(Vertex::new(HALF, MINUS_HALF, HALF));
    let indices: Vec<u32> = vec![0, 1, 2];
    Layer::new(vertices, indices)
}

/// The scene that the application shows: the pyramid, then the triangle. It is
/// well formed, so its index stream can always be merged.
pub fn scene() -> (layers: Layers)
    ensures
        layers.0@.len() == 2,
        is_pyramid(layers.0@[0]),
        is_triangle(layers.0@[1]),
        layers.spec_well_formed(),
{
    let mut layers = Layers::default();
    layers.add_layer(pyramid());
    layers.add_layer(triangle());
    proof {
        let all = layers.0@;
        assert(all.drop_last().drop_last() =~= Seq::<Layer>::empty());
        assert(crate::layer::vertex_count(all.drop_last().drop_last()) == 0);
        assert(crate::layer::vertex_count(all.drop_last()) == 5);
        assert(crate::layer::vertex_count(all) == 8);
    }
    layers
}

} // verus!
