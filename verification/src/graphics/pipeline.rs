//! The graphics pipeline configuration.
//!
//! The shader pair is compiled by the external shader compiler and the
//! pipeline object is created by the device; both happen in the driver.
//! What the engine decides — the vertex attribute layout, the
//! descriptor-set layout, the push-constant range and the baked
//! viewport/scissor extent — is computed and stated here.

use vstd::prelude::*;

use crate::graphics::swapchain::Extent2D;
use crate::graphics::vertex::{attribute_layout, AttributeDesc, Vertex, VERTEX_BYTES};

verus! {

/// The kinds of descriptor a set layout binding can hold.
#[derive(Debug, Clone, Copy, PartialEq, Eq, Structural)]
pub enum DescriptorType {
    SampledImage,
    Sampler,
}

/// One binding of the descriptor-set layout.
#[derive(Debug, Clone, Copy, PartialEq, Eq, Structural)]
pub struct LayoutBinding {
    pub binding: u32,
    pub ty: DescriptorType,
    pub count: usize,
    /// Whether the vertex stage sees the binding.
    pub visible_to_vertex: bool,
    /// Whether the fragment stage sees the binding.
    pub visible_to_fragment: bool,
}

/// The primitive topologies a pipeline can assemble.
#[derive(Debug, Clone, Copy, PartialEq, Eq, Structural)]
pub enum Topology {
    PointList,
    LineList,
    TriangleList,
    TriangleStrip,
}

/// How a fragment's color is combined with the attachment.
#[derive(Debug, Clone, Copy, PartialEq, Eq, Structural)]
pub enum BlendMode {
    /// The fragment replaces the attachment.
    Replace,
    /// Straight (non-premultiplied) alpha blending.
    StraightAlpha,
}

/// The descriptor-set layout: one sampled-image array sized to the pool's
/// per-set capacity, and one sampler, both visible to the vertex and
/// fragment stages.
pub open spec fn layout_bindings(descriptor_size: usize) -> Seq<LayoutBinding> {
    seq![
        LayoutBinding {
            binding: 0,
            ty: DescriptorType::SampledImage,
            count: descriptor_size,
            visible_to_vertex: true,
            visible_to_fragment: true,
        },
        LayoutBinding {
            binding: 1,
            ty: DescriptorType::Sampler,
            count: 1,
            visible_to_vertex: true,
            visible_to_fragment: true,
        },
    ]
}

/// Number of 32-bit push constants: the active quad's UV rectangle.
pub const PUSH_CONSTANT_WORDS: u32 = 4;

/// Everything the driver needs to create the graphics pipeline, besides
/// the compiled shader modules.
#[derive(Debug)]
pub struct PipelineConfig {
    /// The vertex attribute layout, in shader-location order.
    pub attributes: Vec<AttributeDesc>,
    /// Byte stride of one vertex.
    pub vertex_stride: u32,
    /// The descriptor-set layout bindings.
    pub bindings: Vec<LayoutBinding>,
    /// Number of 32-bit words in the push-constant range.
    pub push_constant_words: u32,
    /// How vertices are assembled into primitives.
    pub topology: Topology,
    /// Whether depth/stencil testing is enabled.
    pub depth_stencil_enabled: bool,
    /// How fragments are blended into the color attachment.
    pub blend: BlendMode,
    /// The extent the viewport and scissor are baked to.
    pub extent: Extent2D,
}

impl PipelineConfig {
    /// Well-formedness: the layout is exactly the one the shader pair
    /// expects, and the fixed states are those the engine draws with —
    /// triangle-list topology, no depth/stencil, straight alpha blending.
    pub open spec fn wf(self) -> bool {
        &&& self.attributes@ == attribute_layout()
        &&& self.vertex_stride == VERTEX_BYTES
        &&& self.push_constant_words == PUSH_CONSTANT_WORDS
        &&& self.topology == Topology::TriangleList
        &&& !self.depth_stencil_enabled
        &&& self.blend == BlendMode::StraightAlpha
    }

    /// The pipeline configuration for the given baked extent and
    /// descriptor-pool per-set capacity.
    pub fn create_pipeline(extent: Extent2D, descriptor_size: usize) -> (r: PipelineConfig)
        ensures
            r.wf(),
            r.extent == extent,
            r.bindings@ == layout_bindings(descriptor_size),
    {
        let bindings = vec![
            LayoutBinding {
                binding: 0,
                ty: DescriptorType::SampledImage,
                count: descriptor_size,
                visible_to_vertex: true,
                visible_to_fragment: true,
            },
            LayoutBinding {
                binding: 1,
                ty: DescriptorType::Sampler,
                count: 1,
                visible_to_vertex: true,
                visible_to_fragment: true,
            },
        ];
        proof {
            assert(bindings@ =~= layout_bindings(descriptor_size));
        }
        PipelineConfig {
            attributes: Vertex::attributes(),
            vertex_stride: VERTEX_BYTES as u32,
            bindings,
            push_constant_words: PUSH_CONSTANT_WORDS,
            topology: Topology::TriangleList,
            depth_stencil_enabled: false,
            blend: BlendMode::StraightAlpha,
            extent,
        }
    }
}

} // verus!
