//! The geometry that a sprite batch stages: packed vertices, the four
//! vertices of a quad, the index sequence that turns quads into triangles,
//! and the layout of a vertex in device memory.

use crate::gfx::scalar::{ONE_BITS, ZERO_BITS};
use crate::gfx::texture_region::TextureRegion;
use vstd::prelude::*;

verus! {

/// The vertices of one quad.
pub const VERTICES_PER_QUAD: u32 = 4;

/// The indices of one quad: two triangles.
pub const INDICES_PER_QUAD: u32 = 6;

/// The size in bytes of one packed vertex.
pub const VERTEX_BYTES: u32 = 20;

/// The size in bytes of one index.
pub const INDEX_BYTES: u32 = 4;

/// One vertex as the device reads it: a position, a texture coordinate and
/// a packed RGBA color. The four scalars are bit patterns.
#[derive(Clone, Copy, Debug, PartialEq, Eq, Structural)]
pub struct SpriteVertex {
    pub x: u32,
    pub y: u32,
    pub u: u32,
    pub v: u32,
    pub color: u32,
}

/// A position. Both scalars are bit patterns.
#[derive(Clone, Copy, Debug, PartialEq, Eq, Structural)]
pub struct Point {
    pub x: u32,
    pub y: u32,
}

/// The corners of a quad in winding order: top left, top right, bottom
/// right, bottom left.
#[derive(Clone, Copy, Debug, PartialEq, Eq, Structural)]
pub struct Corners {
    pub top_left: Point,
    pub top_right: Point,
    pub bottom_right: Point,
    pub bottom_left: Point,
}

impl Corners {
    /// The corners of the axis-aligned rectangle from `(x, y)` to
    /// `(x2, y2)`.
    pub open spec fn of_rectangle(x: u32, y: u32, x2: u32, y2: u32) -> Corners {
        Corners {
            top_left: Point { x, y },
            top_right: Point { x: x2, y },
            bottom_right: Point { x: x2, y: y2 },
            bottom_left: Point { x, y: y2 },
        }
    }

    /// The corners of the axis-aligned rectangle from `(x, y)` to
    /// `(x2, y2)`.
    pub fn rectangle(x: u32, y: u32, x2: u32, y2: u32) -> (corners: Corners)
        ensures
            corners == Corners::of_rectangle(x, y, x2, y2),
    {
        Corners {
            top_left: Point { x, y },
            top_right: Point { x: x2, y },
            bottom_right: Point { x: x2, y: y2 },
            bottom_left: Point { x, y: y2 },
        }
    }
}

/// The four vertices of an axis-aligned quad from `(x, y)` to `(x2, y2)`
/// that shows a whole texture. The texture coordinates run against the
/// vertical direction of the positions: the top corners carry `v = 1`.
pub open spec fn rectangle_vertices(x: u32, y: u32, x2: u32, y2: u32, color: u32) -> Seq<
    SpriteVertex,
> {
    seq![
        SpriteVertex { x, y, u: ZERO_BITS, v: ONE_BITS, color },
        SpriteVertex { x: x2, y, u: ONE_BITS, v: ONE_BITS, color },
        SpriteVertex { x: x2, y: y2, u: ONE_BITS, v: ZERO_BITS, color },
        SpriteVertex { x, y: y2, u: ZERO_BITS, v: ZERO_BITS, color },
    ]
}

/// The four vertices of a quad with the given corners that shows `region`.
pub open spec fn region_vertices(region: TextureRegion, corners: Corners, color: u32) -> Seq<
    SpriteVertex,
> {
    seq![
        SpriteVertex {
            x: corners.top_left.x,
            y: corners.top_left.y,
            u: region.spec_u(),
            v: region.spec_v(),
            color,
        },
        SpriteVertex {
            x: corners.top_right.x,
            y: corners.top_right.y,
            u: region.spec_u2(),
            v: region.spec_v(),
            color,
        },
        SpriteVertex {
            x: corners.bottom_right.x,
            y: corners.bottom_right.y,
            u: region.spec_u2(),
            v: region.spec_v2(),
            color,
        },
        SpriteVertex {
            x: corners.bottom_left.x,
            y: corners.bottom_left.y,
            u: region.spec_u(),
            v: region.spec_v2(),
            color,
        },
    ]
}

/// A quad drawn from corners that form an axis-aligned rectangle has, vertex
/// for vertex, the positions of the rectangle drawn directly.
pub proof fn lemma_region_on_rectangle_has_rectangle_positions(
    region: TextureRegion,
    x: u32,
    y: u32,
    x2: u32,
    y2: u32,
    color: u32,
)
    ensures
        region_vertices(region, Corners::of_rectangle(x, y, x2, y2), color).len()
            == rectangle_vertices(x, y, x2, y2, color).len() == VERTICES_PER_QUAD,
        forall|i: int|
            0 <= i < VERTICES_PER_QUAD ==> {
                let sprite = #[trigger] region_vertices(
                    region,
                    Corners::of_rectangle(x, y, x2, y2),
                    color,
                )[i];
                let plain = rectangle_vertices(x, y, x2, y2, color)[i];
                sprite.x == plain.x && sprite.y == plain.y && sprite.color == plain.color
            },
{
}

/// The six indices of quad number `quad`: the triangles over its corners 0,
/// 1, 2 and 2, 3, 0. The corners of quad `k` are the vertices from `4k` on.
pub open spec fn quad_index_block(quad: nat) -> Seq<u32> {
    seq![
        (4 * quad) as u32,
        (4 * quad + 1) as u32,
        (4 * quad + 2) as u32,
        (4 * quad + 2) as u32,
        (4 * quad + 3) as u32,
        (4 * quad) as u32,
    ]
}

/// The index sequence of `count` quads: the blocks of quads 0 to
/// `count - 1`, one after the other.
pub open spec fn quad_indices(count: nat) -> Seq<u32>
    decreases count,
{
    if count == 0 {
        Seq::empty()
    } else {
        quad_indices((count - 1) as nat) + quad_index_block((count - 1) as nat)
    }
}

/// The index sequence holds six indices for each quad, and the block of each
/// quad stands at six times the quad's number.
pub proof fn lemma_quad_indices_layout(count: nat)
    ensures
        quad_indices(count).len() == INDICES_PER_QUAD * count,
        forall|quad: int|
            0 <= quad < count ==> #[trigger] quad_indices(count).subrange(
                INDICES_PER_QUAD * quad,
                INDICES_PER_QUAD * quad + INDICES_PER_QUAD,
            ) == quad_index_block(quad as nat),
    decreases count,
{
    if count > 0 {
        let front = quad_indices((count - 1) as nat);
        let block = quad_index_block((count - 1) as nat);
        lemma_quad_indices_layout((count - 1) as nat);
        assert forall|quad: int| 0 <= quad < count implies #[trigger] quad_indices(count).subrange(
            INDICES_PER_QUAD * quad,
            INDICES_PER_QUAD * quad + INDICES_PER_QUAD,
        ) == quad_index_block(quad as nat) by {
            if quad < count - 1 {
                assert(front.subrange(6 * quad, 6 * quad + 6) == quad_index_block(quad as nat));
                assert((front + block).subrange(6 * quad, 6 * quad + 6) =~= front.subrange(
                    6 * quad,
                    6 * quad + 6,
                ));
            } else {
                assert((front + block).subrange(6 * quad, 6 * quad + 6) =~= block);
            }
        }
    }
}

/// The largest number of quads whose index sequence `build_indices` builds:
/// with more, an index would not fit in 32 bits.
pub const MAX_INDEXED_QUADS: usize = 0x4000_0000;

/// Builds the index sequence of `count` quads. It is the same for every
/// frame, because every quad is staged in the same winding order.
pub fn build_indices(count: usize) -> (indices: Vec<u32>)
    requires
        count <= MAX_INDEXED_QUADS,
    ensures
        indices@ == quad_indices(count as nat),
{
    let mut indices: Vec<u32> = Vec::new();
    let mut quad: usize = 0;
    while quad < count
        invariant
            quad <= count <= MAX_INDEXED_QUADS,
            indices@ == quad_indices(quad as nat),
        decreases count - quad,
    {
        let first: u32 = (quad * 4) as u32;
        let ghost before = indices@;
        indices.push(first);
        indices.push(first + 1);
        indices.push(first + 2);
        indices.push(first + 2);
        indices.push(first + 3);
        indices.push(first);
        assert(indices@ =~= before + quad_index_block(quad as nat));
        quad += 1;
    }
    indices
}

/// How the device reads the components of a vertex attribute.
#[derive(Clone, Copy, Debug, PartialEq, Eq, Structural)]
pub enum ComponentKind {
    /// A 32-bit scalar.
    Scalar,
    /// An unsigned byte, read as the fraction of 255 that it is.
    NormalizedByte,
}

/// One attribute of the vertex layout: where it stands in a vertex and how
/// the device reads it.
#[derive(Clone, Copy, Debug, PartialEq, Eq, Structural)]
pub struct VertexAttribute {
    pub location: u32,
    pub components: u32,
    pub kind: ComponentKind,
    pub stride: u32,
    pub offset: u32,
}

impl VertexAttribute {
    /// The bytes that the attribute takes up in a vertex.
    pub open spec fn byte_len(self) -> int {
        match self.kind {
            ComponentKind::Scalar => 4 * self.components,
            ComponentKind::NormalizedByte => self.components as int,
        }
    }
}

/// The layout of a packed vertex.
pub open spec fn sprite_vertex_layout() -> Seq<VertexAttribute> {
    seq![
        VertexAttribute {
            location: 0,
            components: 2,
            kind: ComponentKind::Scalar,
            stride: VERTEX_BYTES,
            offset: 0,
        },
        VertexAttribute {
            location: 1,
            components: 2,
            kind: ComponentKind::Scalar,
            stride: VERTEX_BYTES,
            offset: 8,
        },
        VertexAttribute {
            location: 2,
            components: 4,
            kind: ComponentKind::NormalizedByte,
            stride: VERTEX_BYTES,
            offset: 16,
        },
    ]
}

/// The attributes of the layout follow each other without a gap and fill
/// the vertex exactly.
pub proof fn lemma_layout_fills_the_vertex()
    ensures
        sprite_vertex_layout()[0].offset == 0,
        forall|i: int|
            0 <= i < 2 ==> (#[trigger] sprite_vertex_layout()[i]).offset + sprite_vertex_layout()[i].byte_len()
                == sprite_vertex_layout()[i + 1].offset,
        sprite_vertex_layout()[2].offset + sprite_vertex_layout()[2].byte_len() == VERTEX_BYTES,
        forall|i: int| 0 <= i < 3 ==> (#[trigger] sprite_vertex_layout()[i]).stride == VERTEX_BYTES,
{
}

/// The layout of a packed vertex: the position at location 0, the texture
/// coordinate at location 1 and the color at location 2, interleaved.
pub fn vertex_layout() -> (layout: [VertexAttribute; 3])
    ensures
        layout@ == sprite_vertex_layout(),
{
    let layout = [
        VertexAttribute {
            location: 0,
            components: 2,
            kind: ComponentKind::Scalar,
            stride: VERTEX_BYTES,
            offset: 0,
        },
        VertexAttribute {
            location: 1,
            components: 2,
            kind: ComponentKind::Scalar,
            stride: VERTEX_BYTES,
            offset: 8,
        },
        VertexAttribute {
            location: 2,
            components: 4,
            kind: ComponentKind::NormalizedByte,
            stride: VERTEX_BYTES,
            offset: 16,
        },
    ];
    assert(layout@ =~= sprite_vertex_layout());
    layout
}

} // verus!
