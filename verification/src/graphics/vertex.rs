//! The per-vertex attribute layout consumed by the shader pair.
//!
//! A vertex carries a position, a UV coordinate, the quad's UV rectangle
//! (for fragment-side clamping) and a texture index.  Float-valued
//! attributes are carried as IEEE-754 single-precision bit patterns; the
//! UV coordinate of a quad corner is always a corner of the unit square,
//! so only the bit patterns of 0.0 and 1.0 appear there.

use vstd::prelude::*;

use crate::geometry::Vec2;

verus! {

/// Bit pattern of 0.0 as a 32-bit float.
pub const UV_ZERO: u32 = 0x0000_0000;

/// Bit pattern of 1.0 as a 32-bit float.
pub const UV_ONE: u32 = 0x3F80_0000;

/// A UV rectangle `[u0, v0, u1, v1]` in texel space; each component is the
/// bit pattern of a 32-bit float.
#[derive(Debug, Clone, Copy, PartialEq, Eq, Structural)]
pub struct UvRect {
    pub u0: u32,
    pub v0: u32,
    pub u1: u32,
    pub v1: u32,
}

/// One vertex as laid out in the vertex buffer: position, UV corner, UV
/// rectangle, texture index.
#[derive(Debug, Clone, Copy, PartialEq, Eq, Structural)]
pub struct Vertex {
    pub xy: Vec2,
    pub uv: Vec2,
    pub uv_rect: UvRect,
    pub tex_num: u32,
}

/// Size of one vertex in bytes: eight 32-bit attributes and one index.
pub const VERTEX_BYTES: usize = 36;

/// The formats a vertex attribute can have.
#[derive(Debug, Clone, Copy, PartialEq, Eq, Structural)]
pub enum AttrFormat {
    Rg32Float,
    Rgba32Float,
    R32Uint,
}

/// One entry of the vertex attribute layout.
#[derive(Debug, Clone, Copy, PartialEq, Eq, Structural)]
pub struct AttributeDesc {
    pub location: u32,
    pub binding: u32,
    pub format: AttrFormat,
    pub offset: u32,
}

/// The attribute layout of `Vertex`: position, UV, UV rectangle and texture
/// index at their byte offsets within one vertex.
pub open spec fn attribute_layout() -> Seq<AttributeDesc> {
    seq![
        AttributeDesc { location: 0, binding: 0, format: AttrFormat::Rg32Float, offset: 0 },
        AttributeDesc { location: 1, binding: 0, format: AttrFormat::Rg32Float, offset: 8 },
        AttributeDesc { location: 2, binding: 0, format: AttrFormat::Rgba32Float, offset: 16 },
        AttributeDesc { location: 3, binding: 0, format: AttrFormat::R32Uint, offset: 32 },
    ]
}

impl Vertex {
    /// A vertex with every attribute zero; the content of a freshly
    /// allocated vertex buffer slot.
    pub open spec fn zeroed_spec() -> Vertex {
        Vertex {
            xy: Vec2 { x: 0, y: 0 },
            uv: Vec2 { x: 0, y: 0 },
            uv_rect: UvRect { u0: 0, v0: 0, u1: 0, v1: 0 },
            tex_num: 0,
        }
    }

    pub fn zeroed() -> (r: Vertex)
        ensures
            r == Vertex::zeroed_spec(),
    {
        Vertex {
            xy: Vec2 { x: 0, y: 0 },
            uv: Vec2 { x: 0, y: 0 },
            uv_rect: UvRect { u0: 0, v0: 0, u1: 0, v1: 0 },
            tex_num: 0,
        }
    }

    /// The vertex attribute layout, in shader-location order.
    pub fn attributes() -> (r: Vec<AttributeDesc>)
        ensures
            r@ == attribute_layout(),
    {
        let position_attribute = AttributeDesc {
            location: 0,
            binding: 0,
            format: AttrFormat::Rg32Float,
            offset: 0,
        };
        let uv_attribute = AttributeDesc {
            location: 1,
            binding: 0,
            format: AttrFormat::Rg32Float,
            offset: 8,
        };
        let uv_rect_attribute = AttributeDesc {
            location: 2,
            binding: 0,
            format: AttrFormat::Rgba32Float,
            offset: 16,
        };
        let tex_num_attribute = AttributeDesc {
            location: 3,
            binding: 0,
            format: AttrFormat::R32Uint,
            offset: 32,
        };
        let r = vec![position_attribute, uv_attribute, uv_rect_attribute, tex_num_attribute];
        proof {
            assert(r@ =~= attribute_layout());
        }
        r
    }

    /// The float-valued attributes of this vertex as one flat array of bit
    /// patterns, in buffer order.
    pub fn to_array(self) -> (r: [u32; 8])
        ensures
            r@ =~= seq![
                self.xy.x,
                self.xy.y,
                self.uv.x,
                self.uv.y,
                self.uv_rect.u0,
                self.uv_rect.v0,
                self.uv_rect.u1,
                self.uv_rect.v1,
            ],
    {
        [
            self.xy.x,
            self.xy.y,
            self.uv.x,
            self.uv.y,
            self.uv_rect.u0,
            self.uv_rect.v0,
            self.uv_rect.u1,
            self.uv_rect.v1,
        ]
    }
}

} // verus!
