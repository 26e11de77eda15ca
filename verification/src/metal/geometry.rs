//! The triangle that the blit draws.

use vstd::prelude::*;

verus! {

/// How many indices the blit draws.
pub const INDEX_COUNT: usize = 3;

/// How many bytes a component takes in the vertex buffer.
pub const COMPONENT_BYTES: usize = 4;

/// Where a vertex attribute stands within a vertex.
#[derive(Clone, Copy, Debug, PartialEq, Eq, Structural)]
pub struct VertexAttribute {
    /// How many components it has.
    pub components: usize,
    /// How many bytes stand before it.
    pub offset: usize,
}

/// How a vertex is laid out.
#[derive(Clone, Copy, Debug, PartialEq, Eq, Structural)]
pub struct VertexLayout {
    pub position: VertexAttribute,
    pub uv: VertexAttribute,
    /// How many bytes a vertex takes.
    pub stride: usize,
    /// Every so many vertices the attributes step on.
    pub step_rate: usize,
}

impl VertexAttribute {
    /// The byte behind the attribute.
    pub open spec fn end(self) -> int {
        self.offset + self.components * COMPONENT_BYTES
    }
}

/// A position of four components, then a texture coordinate of two.
pub open spec fn blit_layout() -> VertexLayout {
    VertexLayout {
        position: VertexAttribute { components: 4, offset: 0 },
        uv: VertexAttribute { components: 2, offset: 16 },
        stride: 24,
        step_rate: 1,
    }
}

/// The components of the three vertices, one vertex after the other.
pub open spec fn blit_vertices() -> Seq<int> {
    seq![
        -1, -1, 0, 1, 0, 1,
        3, -1, 0, 1, 2, 1,
        -1, 3, 0, 1, 0, -1,
    ]
}

/// The order in which the vertices are drawn.
pub open spec fn blit_indices() -> Seq<u16> {
    seq![0u16, 1, 2]
}

/// How the vertices of the blit are laid out.
pub fn vertex_layout() -> (layout: VertexLayout)
    ensures
        layout == blit_layout(),
{
    VertexLayout {
        position: VertexAttribute { components: 4, offset: 0 },
        uv: VertexAttribute { components: 2, offset: 16 },
        stride: 24,
        step_rate: 1,
    }
}

/// The components of the vertices: x, y, z and w of the position, then u and v, for the bottom
/// left, the bottom right and the top left corner.
pub fn vertices() -> (data: Vec<i32>)
    ensures
        data@.map_values(|c: i32| c as int) == blit_vertices(),
{
    let data: Vec<i32> = vec![
        -1, -1, 0, 1, 0, 1,
        3, -1, 0, 1, 2, 1,
        -1, 3, 0, 1, 0, -1,
    ];
    assert(data@.map_values(|c: i32| c as int) =~= blit_vertices());
    data
}

/// The vertices of the one triangle.
pub fn indices() -> (data: Vec<u16>)
    ensures
        data@ == blit_indices(),
{
    let data: Vec<u16> = vec![0, 1, 2];
    assert(data@ =~= blit_indices());
    data
}

/// Component `component` of vertex `vertex`.
pub open spec fn blit_component(vertex: int, component: int) -> int {
    blit_vertices()[vertex * 6 + component]
}

/// The sum of component `component` over the vertices, weighted with `weights`.
pub open spec fn blit_weighted(weights: (int, int, int), component: int) -> int {
    weights.0 * blit_component(0, component) + weights.1 * blit_component(1, component)
        + weights.2 * blit_component(2, component)
}

/// The attributes fill a vertex without gap or overlap, the vertex data is three whole vertices,
/// every index names one of them, and all the indices are drawn.
pub proof fn law_layout_fits_the_data(i: int)
    ensures
        blit_layout().position.offset == 0,
        blit_layout().position.end() == blit_layout().uv.offset,
        blit_layout().uv.end() == blit_layout().stride,
        blit_vertices().len() * COMPONENT_BYTES == 3 * blit_layout().stride,
        0 <= i < blit_indices().len() ==> blit_indices()[i] * blit_layout().stride
            < blit_vertices().len() * COMPONENT_BYTES,
        blit_indices().len() == INDEX_COUNT,
{
}

/// The one triangle covers the whole screen, and maps it onto the whole texture. Take any point
/// `(x / d, y / d)` of the screen, whose coordinates run from -1 to 1. It is a mean of the
/// vertices with weights of which none is negative; and the texture coordinates have their mean
/// at `((x / d + 1) / 2, (1 - y / d) / 2)`, which lies between 0 and 1.
pub proof fn law_triangle_covers_the_screen(x: int, y: int, d: int)
    requires
        d > 0,
        -d <= x <= d,
        -d <= y <= d,
    ensures
        ({
            let weights = (2 * d - x - y, x + d, y + d);
            &&& weights.0 >= 0 && weights.1 >= 0 && weights.2 >= 0
            &&& weights.0 + weights.1 + weights.2 == 4 * d
            &&& blit_weighted(weights, 0) == 4 * x
            &&& blit_weighted(weights, 1) == 4 * y
            &&& blit_weighted(weights, 2) == 0
            &&& blit_weighted(weights, 3) == 4 * d
            &&& blit_weighted(weights, 4) == 2 * (x + d)
            &&& blit_weighted(weights, 5) == 2 * (d - y)
            &&& 0 <= blit_weighted(weights, 4) <= 4 * d
            &&& 0 <= blit_weighted(weights, 5) <= 4 * d
        }),
{
    let (a, b, c) = (2 * d - x - y, x + d, y + d);
    assert(blit_component(0, 0) == -1 && blit_component(1, 0) == 3 && blit_component(2, 0) == -1);
    assert(blit_component(0, 1) == -1 && blit_component(1, 1) == -1 && blit_component(2, 1) == 3);
    assert(blit_component(0, 2) == 0 && blit_component(1, 2) == 0 && blit_component(2, 2) == 0);
    assert(blit_component(0, 3) == 1 && blit_component(1, 3) == 1 && blit_component(2, 3) == 1);
    assert(blit_component(0, 4) == 0 && blit_component(1, 4) == 2 && blit_component(2, 4) == 0);
    assert(blit_component(0, 5) == 1 && blit_component(1, 5) == 1 && blit_component(2, 5) == -1);
    assert(a * -1 + b * 3 + c * -1 == 4 * x);
    assert(a * -1 + b * -1 + c * 3 == 4 * y);
    assert(a * 0 + b * 0 + c * 0 == 0);
    assert(a * 1 + b * 1 + c * 1 == 4 * d);
    assert(a * 0 + b * 2 + c * 0 == 2 * (x + d));
    assert(a * 1 + b * 1 + c * -1 == 2 * (d - y));
}

} // verus!
