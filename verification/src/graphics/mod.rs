//! The engine core: quads, buffering policy, and the per-frame protocol.

pub mod frame;
pub mod gpu_buffer;
pub mod loadedimage;
pub mod pipeline;
pub mod swapchain;
pub mod vertex;

use vstd::prelude::*;

use crate::error::{BufferGrowthError, DeviceInitError, FrameError, TextureError};
use crate::geometry::{Quad, Vec2};
use crate::graphics::frame::{
    quad_clear_color, ClearColor, FramePhase, FrameSession, SubmitPlan,
};
use crate::graphics::gpu_buffer::{flat_vertices, quad_index_seq, GpuBuffer, MAX_QUADS};
use crate::graphics::loadedimage::{
    decode_rgba, rgba_decode, spec_binding, TexturePool, TextureUpload,
};
use crate::graphics::pipeline::PipelineConfig;
use crate::graphics::swapchain::{
    build_swapchain_settings, spec_chosen_settings, spec_settings_error, Extent2D, SurfaceCaps,
    SwapchainSettings,
};
use crate::graphics::vertex::{UvRect, Vertex, UV_ONE, UV_ZERO};

verus! {

/// A quad with its UV rectangle and the index of the texture it samples.
#[derive(Debug, Clone, Copy, PartialEq, Eq, Structural)]
pub struct TexturedQuad {
    pub quad: Quad,
    pub uv_rect: UvRect,
    pub tex_num: u32,
}

/// The buffering policies a caller can ask for, most to least buffered.
#[derive(Debug, Clone, Copy, PartialEq, Eq, Structural)]
pub enum Vsync {
    TripleBuffered,
    DoubleBuffered,
    Relaxed,
    Immediate,
}

/// The present modes a surface can offer.
#[derive(Debug, Clone, Copy, PartialEq, Eq, Structural)]
pub enum PresentMode {
    Mailbox,
    Fifo,
    Relaxed,
    Immediate,
}

impl Vsync {
    /// The present mode that realizes this buffering policy.
    pub fn present_mode(self) -> (r: PresentMode)
        ensures
            r == self.present_mode_spec(),
    {
        match self {
            Vsync::TripleBuffered => PresentMode::Mailbox,
            Vsync::DoubleBuffered => PresentMode::Fifo,
            Vsync::Relaxed => PresentMode::Relaxed,
            Vsync::Immediate => PresentMode::Immediate,
        }
    }

    pub open spec fn present_mode_spec(self) -> PresentMode {
        match self {
            Vsync::TripleBuffered => PresentMode::Mailbox,
            Vsync::DoubleBuffered => PresentMode::Fifo,
            Vsync::Relaxed => PresentMode::Relaxed,
            Vsync::Immediate => PresentMode::Immediate,
        }
    }
}

/// The four vertices of a textured quad, in the order they are written to
/// the vertex buffer.  Their UV coordinates are the corners of the unit
/// square; the quad's UV rectangle and texture index are copied unchanged
/// into every vertex.
pub open spec fn to_vertices_seq(q: TexturedQuad) -> Seq<Vertex> {
    seq![
        Vertex {
            xy: q.quad.top_left,
            uv: Vec2 { x: UV_ZERO, y: UV_ONE },
            uv_rect: q.uv_rect,
            tex_num: q.tex_num,
        },
        Vertex {
            xy: q.quad.bottom_left,
            uv: Vec2 { x: UV_ZERO, y: UV_ZERO },
            uv_rect: q.uv_rect,
            tex_num: q.tex_num,
        },
        Vertex {
            xy: q.quad.bottom_right,
            uv: Vec2 { x: UV_ONE, y: UV_ZERO },
            uv_rect: q.uv_rect,
            tex_num: q.tex_num,
        },
        Vertex {
            xy: q.quad.top_right,
            uv: Vec2 { x: UV_ONE, y: UV_ONE },
            uv_rect: q.uv_rect,
            tex_num: q.tex_num,
        },
    ]
}

impl TexturedQuad {
    /// The four vertices of this quad, UV coordinates at the unit-square
    /// corners and the UV rectangle passed through unchanged.
    pub fn to_vertices(self) -> (r: [Vertex; 4])
        ensures
            r@ =~= to_vertices_seq(self),
    {
        [
            Vertex {
                xy: self.quad.top_left,
                uv: Vec2 { x: UV_ZERO, y: UV_ONE },
                uv_rect: self.uv_rect,
                tex_num: self.tex_num,
            },
            Vertex {
                xy: self.quad.bottom_left,
                uv: Vec2 { x: UV_ZERO, y: UV_ZERO },
                uv_rect: self.uv_rect,
                tex_num: self.tex_num,
            },
            Vertex {
                xy: self.quad.bottom_right,
                uv: Vec2 { x: UV_ONE, y: UV_ZERO },
                uv_rect: self.uv_rect,
                tex_num: self.tex_num,
            },
            Vertex {
                xy: self.quad.top_right,
                uv: Vec2 { x: UV_ONE, y: UV_ONE },
                uv_rect: self.uv_rect,
                tex_num: self.tex_num,
            },
        ]
    }
}

/// Law: a quad's four vertices have UV coordinates at the four corners of
/// the unit square — not of the quad's UV rectangle — while every vertex
/// carries the quad's UV rectangle and texture index unchanged.
pub proof fn lemma_uv_round_trip(q: TexturedQuad)
    ensures
        to_vertices_seq(q).len() == 4,
        to_vertices_seq(q)[0].uv == (Vec2 { x: UV_ZERO, y: UV_ONE }),
        to_vertices_seq(q)[1].uv == (Vec2 { x: UV_ZERO, y: UV_ZERO }),
        to_vertices_seq(q)[2].uv == (Vec2 { x: UV_ONE, y: UV_ZERO }),
        to_vertices_seq(q)[3].uv == (Vec2 { x: UV_ONE, y: UV_ONE }),
        forall|i: int| 0 <= i < 4 ==> (#[trigger] to_vertices_seq(q)[i]).uv_rect == q.uv_rect,
        forall|i: int| 0 <= i < 4 ==> (#[trigger] to_vertices_seq(q)[i]).tex_num == q.tex_num,
        forall|i: int| 0 <= i < 4 ==> ((#[trigger] to_vertices_seq(q)[i]).uv.x == UV_ZERO
            || to_vertices_seq(q)[i].uv.x == UV_ONE) && (to_vertices_seq(q)[i].uv.y == UV_ZERO
            || to_vertices_seq(q)[i].uv.y == UV_ONE),
{
}

/// Image slots per descriptor set.
pub const DESCRIPTOR_SET_IMAGE_COUNT: usize = 64;

/// Fixed capacity of the descriptor pool, in sets.
pub const DESCRIPTOR_SET_COUNT: usize = 16;

/// The descriptor set bound for a batch whose first quad samples texture
/// `tex_num`: the set that texture's index falls into, if it has been
/// allocated.
pub open spec fn spec_batch_descriptor_set(tex_num: u32, pool: TexturePool) -> Option<usize> {
    let set = tex_num as int / pool.descriptor_size as int;
    if set < pool.descriptor_set_count {
        Some(set as usize)
    } else {
        None
    }
}

/// One step of the teardown sequence.
#[derive(Debug, Clone, Copy, PartialEq, Eq, Structural)]
pub enum TeardownStep {
    /// Block until all in-flight GPU work completes.
    WaitIdle,
    DestroyFences,
    DestroySemaphores,
    DestroyFramebuffers,
    DestroyImageViews,
    /// The vertex and index buffers together with their backing memory.
    DestroyBuffers,
    DestroyTextures,
    DestroySamplers,
    /// Implicitly frees every descriptor set allocated from it.
    DestroyDescriptorPool,
    DestroyDescriptorSetLayouts,
    DestroyPipelineLayout,
    DestroyPipeline,
    DestroyCommandPool,
    DestroyRenderPass,
    DestroySwapchain,
    DestroyDevice,
    DestroyInstance,
}

/// The strict reverse-dependency order of teardown: wait for the device to
/// go idle, then destroy every object before anything it depends on.
pub open spec fn teardown_seq() -> Seq<TeardownStep> {
    seq![
        TeardownStep::WaitIdle,
        TeardownStep::DestroyFences,
        TeardownStep::DestroySemaphores,
        TeardownStep::DestroyFramebuffers,
        TeardownStep::DestroyImageViews,
        TeardownStep::DestroyBuffers,
        TeardownStep::DestroyTextures,
        TeardownStep::DestroySamplers,
        TeardownStep::DestroyDescriptorPool,
        TeardownStep::DestroyDescriptorSetLayouts,
        TeardownStep::DestroyPipelineLayout,
        TeardownStep::DestroyPipeline,
        TeardownStep::DestroyCommandPool,
        TeardownStep::DestroyRenderPass,
        TeardownStep::DestroySwapchain,
        TeardownStep::DestroyDevice,
        TeardownStep::DestroyInstance,
    ]
}

/// The engine: swapchain settings, frame-slot cursor, quad buffers,
/// texture pool and pipeline configuration.  The driver owns the GPU
/// objects these fields account for and mirrors every change the methods
/// make.
#[derive(Debug)]
pub struct HalState {
    /// The vertex and index buffers, in quad units.
    pub buffers: GpuBuffer,
    /// The texture list and descriptor-pool accounting.
    pub texture_pool: TexturePool,
    /// The frame slot the next draw call uses.
    pub current_frame: usize,
    /// How many frames may be in flight; equals the swapchain image count.
    pub frames_in_flight: usize,
    /// The settings the swapchain was created with.
    pub settings: SwapchainSettings,
    /// The pipeline configuration.
    pub pipeline: PipelineConfig,
}

impl HalState {
    /// Well-formedness of the whole engine.
    pub open spec fn wf(self) -> bool {
        &&& self.buffers.wf()
        &&& self.texture_pool.wf()
        &&& 1 <= self.frames_in_flight
        &&& self.current_frame < self.frames_in_flight
        &&& self.frames_in_flight == self.settings.image_count
        &&& self.pipeline.wf()
    }

    /// Construct the engine: choose the swapchain settings from the
    /// surface's capabilities, size the quad buffers for `num_quads`, and
    /// start the frame cursor at slot zero with one frame slot per
    /// swapchain image.
    pub fn new(
        caps: &SurfaceCaps,
        window: Extent2D,
        num_quads: usize,
        preferred_vsync: &Vec<PresentMode>,
    ) -> (r: Result<HalState, DeviceInitError>)
        requires
            caps.wf(),
            1 <= num_quads <= MAX_QUADS,
        ensures
            r is Err <==> spec_settings_error(*caps, preferred_vsync@) is Some,
            r matches Err(e) ==> Some(e) == spec_settings_error(*caps, preferred_vsync@),
            r matches Ok(h) ==> {
                &&& h.wf()
                &&& h.settings == spec_chosen_settings(*caps, window, preferred_vsync@)
                &&& h.current_frame == 0
                &&& h.frames_in_flight == h.settings.image_count
                &&& h.buffers.cap == num_quads
                &&& h.buffers.indices@ == quad_index_seq(num_quads as nat)
                &&& h.texture_pool == (TexturePool {
                    texture_count: 0,
                    descriptor_set_count: 0,
                    descriptor_size: DESCRIPTOR_SET_IMAGE_COUNT,
                    pool_size: DESCRIPTOR_SET_COUNT,
                })
                &&& h.pipeline.extent == h.settings.extent
                &&& h.pipeline.bindings@ == crate::graphics::pipeline::layout_bindings(
                    DESCRIPTOR_SET_IMAGE_COUNT,
                )
            },
    {
        let settings = match build_swapchain_settings(caps, window, preferred_vsync) {
            Ok(s) => s,
            Err(e) => {
                return Err(e);
            },
        };
        let buffers = GpuBuffer::new(num_quads);
        let texture_pool = TexturePool::new(DESCRIPTOR_SET_IMAGE_COUNT, DESCRIPTOR_SET_COUNT);
        let pipeline = PipelineConfig::create_pipeline(
            settings.extent,
            DESCRIPTOR_SET_IMAGE_COUNT,
        );
        Ok(
            HalState {
                buffers,
                texture_pool,
                current_frame: 0,
                frames_in_flight: settings.image_count as usize,
                settings,
                pipeline,
            },
        )
    }

    /// Load a texture from encoded image bytes: decode them to RGBA,
    /// account for the descriptor set and array slot the texture is bound
    /// into, and hand the bitmap and binding to the driver for upload.  A
    /// failed load changes nothing and never affects previously loaded
    /// textures.
    pub fn load_texture(&mut self, texture: &Vec<u8>) -> (r: Result<TextureUpload, TextureError>)
        requires
            old(self).wf(),
        ensures
            final(self).wf(),
            final(self).buffers == old(self).buffers,
            final(self).current_frame == old(self).current_frame,
            final(self).frames_in_flight == old(self).frames_in_flight,
            final(self).settings == old(self).settings,
            final(self).pipeline == old(self).pipeline,
            final(self).texture_pool.descriptor_size == old(self).texture_pool.descriptor_size,
            final(self).texture_pool.pool_size == old(self).texture_pool.pool_size,
            r is Err ==> *final(self) == *old(self),
            r == Err::<TextureUpload, TextureError>(TextureError::ImageDecodeError) <==> rgba_decode(
                texture@,
            ) is None,
            r == Err::<TextureUpload, TextureError>(TextureError::DescriptorPoolExhausted) <==> (
            rgba_decode(texture@) is Some && old(self).texture_pool.spec_exhausted()),
            r is Ok <==> (rgba_decode(texture@) is Some && !old(
                self,
            ).texture_pool.spec_exhausted()),
            r matches Ok(u) ==> {
                &&& Some((u.bitmap.width, u.bitmap.height, u.bitmap.pixels@)) == rgba_decode(
                    texture@,
                )
                &&& u.bitmap.wf()
                &&& u.binding == spec_binding(
                    old(self).texture_pool.texture_count as nat,
                    old(self).texture_pool.descriptor_size as nat,
                )
                &&& (u.binding.array_offset == 0 <==> old(
                    self,
                ).texture_pool.spec_needs_new_set())
                &&& ((u.binding.set_index == 0 && u.binding.array_offset == 0) <==> old(
                    self,
                ).texture_pool.texture_count == 0)
                &&& final(self).texture_pool.texture_count == old(
                    self,
                ).texture_pool.texture_count + 1
                &&& final(self).texture_pool.descriptor_set_count == old(
                    self,
                ).texture_pool.descriptor_set_count + (if old(
                    self,
                ).texture_pool.spec_needs_new_set() {
                    1int
                } else {
                    0int
                })
            },
    {
        let bitmap = match decode_rgba(texture) {
            Some(b) => b,
            None => {
                return Err(TextureError::ImageDecodeError);
            },
        };
        let binding = match self.texture_pool.register_texture() {
            Ok(b) => b,
            Err(e) => {
                return Err(e);
            },
        };
        Ok(TextureUpload { binding, bitmap })
    }

    /// Report that uploading the most recently loaded texture failed: the
    /// engine takes that texture back out of its accounting, so the next
    /// load gets the same index again.  Previously loaded textures, their
    /// bindings, and everything else stay untouched.
    pub fn texture_upload_failed(&mut self)
        requires
            old(self).wf(),
            old(self).texture_pool.texture_count >= 1,
        ensures
            final(self).wf(),
            final(self).buffers == old(self).buffers,
            final(self).current_frame == old(self).current_frame,
            final(self).frames_in_flight == old(self).frames_in_flight,
            final(self).settings == old(self).settings,
            final(self).pipeline == old(self).pipeline,
            final(self).texture_pool.texture_count == old(self).texture_pool.texture_count - 1,
            final(self).texture_pool.descriptor_size == old(self).texture_pool.descriptor_size,
            final(self).texture_pool.pool_size == old(self).texture_pool.pool_size,
    {
        self.texture_pool.unregister_texture();
    }

    /// Grow the vertex and index buffers to hold at least `new_max` quads.
    /// Growth is all-or-nothing: a failed request leaves the old buffers
    /// valid and unchanged, and capacity never decreases.
    pub fn extend_quad_alloc(&mut self, new_max: usize) -> (r: Result<(), BufferGrowthError>)
        requires
            old(self).wf(),
        ensures
            final(self).wf(),
            final(self).texture_pool == old(self).texture_pool,
            final(self).current_frame == old(self).current_frame,
            final(self).frames_in_flight == old(self).frames_in_flight,
            final(self).settings == old(self).settings,
            final(self).pipeline == old(self).pipeline,
            final(self).buffers.cap >= old(self).buffers.cap,
            r is Ok ==> final(self).buffers.cap >= new_max,
            new_max <= old(self).buffers.cap ==> r is Ok && final(self).buffers == old(
                self,
            ).buffers,
            old(self).buffers.cap < new_max <= MAX_QUADS ==> r is Ok && final(self).buffers.cap
                == new_max,
            new_max > MAX_QUADS ==> r == Err::<(), BufferGrowthError>(
                BufferGrowthError::CapacityTooLarge,
            ) && final(self).buffers == old(self).buffers,
    {
        self.buffers.ensure_capacity(new_max)
    }

    /// Begin drawing a batch of textured quads: select the current frame
    /// slot and advance the cursor immediately — before anything that can
    /// fail — then grow the buffers if the batch needs it, write the
    /// batch's vertices, and hand the driver a session holding everything
    /// to record: six indices per quad, the first quad's descriptor set
    /// and UV rectangle as push constants.
    pub fn draw_quad_frame(&mut self, textured_quads: &Vec<TexturedQuad>) -> (r: Result<
        FrameSession,
        FrameError,
    >)
        requires
            old(self).wf(),
            textured_quads@.len() >= 1,
        ensures
            final(self).wf(),
            final(self).current_frame == (old(self).current_frame + 1) % (old(
                self,
            ).frames_in_flight as int),
            final(self).frames_in_flight == old(self).frames_in_flight,
            final(self).texture_pool == old(self).texture_pool,
            final(self).settings == old(self).settings,
            final(self).pipeline == old(self).pipeline,
            r is Err <==> textured_quads@.len() > MAX_QUADS,
            r is Err ==> r == Err::<FrameSession, FrameError>(
                FrameError::BufferGrowth(BufferGrowthError::CapacityTooLarge),
            ) && final(self).buffers == old(self).buffers,
            r is Ok ==> final(self).buffers.cap == (if textured_quads@.len() <= old(
                self,
            ).buffers.cap {
                old(self).buffers.cap as int
            } else {
                textured_quads@.len() as int
            }),
            r is Ok ==> final(self).buffers.vertices@.subrange(
                0,
                4 * textured_quads@.len() as int,
            ) =~= flat_vertices(textured_quads@),
            r matches Ok(s) ==> {
                &&& s.slot == old(self).current_frame
                &&& s.phase == FramePhase::Acquiring
                &&& s.writes_vertices == true
                &&& s.plan.clear_color == quad_clear_color()
                &&& s.plan.index_count == 6 * textured_quads@.len()
                &&& s.plan.push_constants == textured_quads@[0].uv_rect
                &&& s.plan.descriptor_set == spec_batch_descriptor_set(
                    textured_quads@[0].tex_num,
                    old(self).texture_pool,
                )
            },
    {
        // Advance the frame cursor before anything below can fail.
        let slot = self.current_frame;
        self.current_frame = (self.current_frame + 1) % self.frames_in_flight;
        proof {
            vstd::arithmetic::div_mod::lemma_mod_division_less_than_divisor(
                slot as int + 1,
                self.frames_in_flight as int,
            );
        }
        match self.buffers.ensure_capacity(textured_quads.len()) {
            Ok(()) => {},
            Err(e) => {
                return Err(FrameError::BufferGrowth(e));
            },
        }
        self.buffers.write(textured_quads);
        proof {
            assert(self.buffers.vertices@.subrange(0, 4 * textured_quads@.len() as int)
                =~= flat_vertices(textured_quads@));
        }
        let first = textured_quads[0];
        let set_idx: usize = (first.tex_num as usize) / self.texture_pool.descriptor_size;
        let descriptor_set: Option<usize> = if set_idx < self.texture_pool.descriptor_set_count {
            Some(set_idx)
        } else {
            None
        };
        let index_count: u32 = (6 * textured_quads.len()) as u32;
        let plan = SubmitPlan {
            clear_color: ClearColor {
                r: crate::graphics::frame::CLEAR_TINT_R,
                g: crate::graphics::frame::CLEAR_TINT_G,
                b: crate::graphics::frame::CLEAR_TINT_B,
                a: crate::graphics::frame::CLEAR_TINT_A,
            },
            index_count,
            descriptor_set,
            push_constants: first.uv_rect,
        };
        Ok(
            FrameSession {
                slot,
                image: 0,
                writes_vertices: true,
                phase: FramePhase::Acquiring,
                plan,
            },
        )
    }

    /// Begin a frame that only clears the screen to `color`: select the
    /// current frame slot, advance the cursor, and hand the driver a
    /// session that records no draw.
    pub fn draw_clear_frame(&mut self, color: ClearColor) -> (r: FrameSession)
        requires
            old(self).wf(),
        ensures
            final(self).wf(),
            final(self).current_frame == (old(self).current_frame + 1) % (old(
                self,
            ).frames_in_flight as int),
            final(self).frames_in_flight == old(self).frames_in_flight,
            final(self).buffers == old(self).buffers,
            final(self).texture_pool == old(self).texture_pool,
            final(self).settings == old(self).settings,
            final(self).pipeline == old(self).pipeline,
            r.slot == old(self).current_frame,
            r.phase == FramePhase::Acquiring,
            r.writes_vertices == false,
            r.plan == (SubmitPlan {
                clear_color: color,
                index_count: 0,
                descriptor_set: None,
                push_constants: UvRect { u0: 0, v0: 0, u1: 0, v1: 0 },
            }),
    {
        let slot = self.current_frame;
        self.current_frame = (self.current_frame + 1) % self.frames_in_flight;
        proof {
            vstd::arithmetic::div_mod::lemma_mod_division_less_than_divisor(
                slot as int + 1,
                self.frames_in_flight as int,
            );
        }
        FrameSession {
            slot,
            image: 0,
            writes_vertices: false,
            phase: FramePhase::Acquiring,
            plan: SubmitPlan {
                clear_color: color,
                index_count: 0,
                descriptor_set: None,
                push_constants: UvRect { u0: 0, v0: 0, u1: 0, v1: 0 },
            },
        }
    }

    /// The teardown sequence the driver must follow when disposing of the
    /// engine: wait for the device to go idle, then destroy every GPU
    /// object in strict reverse-dependency order.
    pub fn dispose(&self) -> (r: Vec<TeardownStep>)
        ensures
            r@ == teardown_seq(),
    {
        let r = vec![
            TeardownStep::WaitIdle,
            TeardownStep::DestroyFences,
            TeardownStep::DestroySemaphores,
            TeardownStep::DestroyFramebuffers,
            TeardownStep::DestroyImageViews,
            TeardownStep::DestroyBuffers,
            TeardownStep::DestroyTextures,
            TeardownStep::DestroySamplers,
            TeardownStep::DestroyDescriptorPool,
            TeardownStep::DestroyDescriptorSetLayouts,
            TeardownStep::DestroyPipelineLayout,
            TeardownStep::DestroyPipeline,
            TeardownStep::DestroyCommandPool,
            TeardownStep::DestroyRenderPass,
            TeardownStep::DestroySwapchain,
            TeardownStep::DestroyDevice,
            TeardownStep::DestroyInstance,
        ];
        proof {
            assert(r@ =~= teardown_seq());
        }
        r
    }
}

} // verus!
