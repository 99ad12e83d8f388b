//! The per-frame synchronization protocol.
//!
//! A draw call selects the current frame slot and advances the slot cursor
//! immediately, before anything that can fail, so an aborted frame never
//! desynchronizes future cycling.  The rest of the frame is a session the
//! driver steps through in order — acquire the swapchain image, wait on and
//! reset that image's fence, write vertices, record and submit, present —
//! handing each outcome back as a plain value.  Every failure is reported
//! as a distinct error and freezes the session.

use vstd::prelude::*;

use crate::error::FrameError;
use crate::graphics::vertex::UvRect;

verus! {

/// Bit pattern of 0.1 as a 32-bit float.
pub const CLEAR_TINT_R: u32 = 0x3DCC_CCCD;

/// Bit pattern of 0.2 as a 32-bit float.
pub const CLEAR_TINT_G: u32 = 0x3E4C_CCCD;

/// Bit pattern of 0.3 as a 32-bit float.
pub const CLEAR_TINT_B: u32 = 0x3E99_999A;

/// Bit pattern of 1.0 as a 32-bit float.
pub const CLEAR_TINT_A: u32 = 0x3F80_0000;

/// A clear color; each channel is the bit pattern of a 32-bit float.
#[derive(Debug, Clone, Copy, PartialEq, Eq, Structural)]
pub struct ClearColor {
    pub r: u32,
    pub g: u32,
    pub b: u32,
    pub a: u32,
}

/// The fixed clear color quad frames are cleared with: (0.1, 0.2, 0.3, 1.0).
pub open spec fn quad_clear_color() -> ClearColor {
    ClearColor { r: CLEAR_TINT_R, g: CLEAR_TINT_G, b: CLEAR_TINT_B, a: CLEAR_TINT_A }
}

/// What the driver records into the command buffer and submits for one
/// frame.
#[derive(Debug, Clone, Copy, PartialEq, Eq, Structural)]
pub struct SubmitPlan {
    /// The render pass's clear value.
    pub clear_color: ClearColor,
    /// Indices of the single indexed draw: six per quad in the batch.
    pub index_count: u32,
    /// The descriptor set bound for the whole batch — the one holding the
    /// first quad's texture — or `None` when no such set exists yet.
    pub descriptor_set: Option<usize>,
    /// The push-constant range: the first quad's UV rectangle.
    pub push_constants: UvRect,
}

/// Where a frame session stands in the acquire → wait → record → submit →
/// present protocol.
#[derive(Debug, Clone, Copy, PartialEq, Eq, Structural)]
pub enum FramePhase {
    /// Waiting for the driver to acquire a swapchain image.
    Acquiring,
    /// Waiting for the acquired image's in-flight fence to be waited on and
    /// reset.
    WaitingFence,
    /// Waiting for the vertex batch to be written into the mapped buffer.
    WritingVertices,
    /// Waiting for the recorded submission to be presented.
    Presenting,
    /// The frame was presented.
    Complete,
    /// A step failed; the session is frozen.
    Failed,
}

/// One frame in flight: the chosen slot, the acquired image, and the
/// recording plan, stepped by the driver through the protocol phases.
#[derive(Debug, Clone, Copy, PartialEq, Eq, Structural)]
pub struct FrameSession {
    /// The frame slot whose semaphores this frame uses.
    pub slot: usize,
    /// The acquired swapchain image index; meaningful from the fence wait
    /// on.  The fence waited on is this image's, not the slot's.
    pub image: u32,
    /// Whether this frame writes the vertex buffer before recording.
    pub writes_vertices: bool,
    /// Where the session stands.
    pub phase: FramePhase,
    /// What to record and submit.
    pub plan: SubmitPlan,
}

impl FrameSession {
    /// Report the acquire outcome: the acquired image index, or `None` when
    /// the surface was lost or out of date, which invalidates the
    /// swapchain.
    pub fn image_acquired(&mut self, image: Option<u32>) -> (r: Result<(), FrameError>)
        requires
            old(self).phase == FramePhase::Acquiring,
        ensures
            final(self).slot == old(self).slot,
            final(self).writes_vertices == old(self).writes_vertices,
            final(self).plan == old(self).plan,
            image matches Some(i) ==> r is Ok && final(self).phase == FramePhase::WaitingFence
                && final(self).image == i,
            image is None ==> r == Err::<(), FrameError>(FrameError::SwapchainInvalidated)
                && final(self).phase == FramePhase::Failed,
    {
        match image {
            Some(i) => {
                self.image = i;
                self.phase = FramePhase::WaitingFence;
                Ok(())
            },
            None => {
                self.phase = FramePhase::Failed;
                Err(FrameError::SwapchainInvalidated)
            },
        }
    }

    /// Report the outcome of waiting on and resetting the acquired image's
    /// in-flight fence.
    pub fn fence_synced(&mut self, wait_ok: bool, reset_ok: bool) -> (r: Result<(), FrameError>)
        requires
            old(self).phase == FramePhase::WaitingFence,
        ensures
            final(self).slot == old(self).slot,
            final(self).image == old(self).image,
            final(self).writes_vertices == old(self).writes_vertices,
            final(self).plan == old(self).plan,
            !wait_ok ==> r == Err::<(), FrameError>(FrameError::FenceWaitFailed)
                && final(self).phase == FramePhase::Failed,
            wait_ok && !reset_ok ==> r == Err::<(), FrameError>(FrameError::FenceResetFailed)
                && final(self).phase == FramePhase::Failed,
            wait_ok && reset_ok ==> r is Ok && final(self).phase == (if old(self).writes_vertices {
                FramePhase::WritingVertices
            } else {
                FramePhase::Presenting
            }),
    {
        if !wait_ok {
            self.phase = FramePhase::Failed;
            Err(FrameError::FenceWaitFailed)
        } else if !reset_ok {
            self.phase = FramePhase::Failed;
            Err(FrameError::FenceResetFailed)
        } else {
            if self.writes_vertices {
                self.phase = FramePhase::WritingVertices;
            } else {
                self.phase = FramePhase::Presenting;
            }
            Ok(())
        }
    }

    /// Report the outcome of mapping the vertex buffer and writing the
    /// batch into it.
    pub fn vertices_written(&mut self, ok: bool) -> (r: Result<(), FrameError>)
        requires
            old(self).phase == FramePhase::WritingVertices,
        ensures
            final(self).slot == old(self).slot,
            final(self).image == old(self).image,
            final(self).writes_vertices == old(self).writes_vertices,
            final(self).plan == old(self).plan,
            ok ==> r is Ok && final(self).phase == FramePhase::Presenting,
            !ok ==> r == Err::<(), FrameError>(FrameError::VertexWriteFailed) && final(self).phase
                == FramePhase::Failed,
    {
        if ok {
            self.phase = FramePhase::Presenting;
            Ok(())
        } else {
            self.phase = FramePhase::Failed;
            Err(FrameError::VertexWriteFailed)
        }
    }

    /// Report the outcome of presenting the acquired image.  A present
    /// failure is distinct from acquire and submit failures so the caller
    /// can choose its recovery strategy.
    pub fn presented(&mut self, ok: bool) -> (r: Result<(), FrameError>)
        requires
            old(self).phase == FramePhase::Presenting,
        ensures
            final(self).slot == old(self).slot,
            final(self).image == old(self).image,
            final(self).writes_vertices == old(self).writes_vertices,
            final(self).plan == old(self).plan,
            ok ==> r is Ok && final(self).phase == FramePhase::Complete,
            !ok ==> r == Err::<(), FrameError>(FrameError::PresentFailed) && final(self).phase
                == FramePhase::Failed,
    {
        if ok {
            self.phase = FramePhase::Complete;
            Ok(())
        } else {
            self.phase = FramePhase::Failed;
            Err(FrameError::PresentFailed)
        }
    }
}

/// The frame slot after one draw call.
pub open spec fn next_frame(c: nat, fif: nat) -> nat
    recommends
        fif >= 1,
{
    (c + 1) % fif
}

/// The frame slot after `n` draw calls.
pub open spec fn frame_after(c: nat, fif: nat, n: nat) -> nat
    recommends
        fif >= 1,
    decreases n,
{
    if n == 0 {
        c
    } else {
        next_frame(frame_after(c, fif, (n - 1) as nat), fif)
    }
}

/// The slot cursor walks the ring: after `n` draw calls, whatever their
/// outcomes, the slot is `(c + n) % frames_in_flight`.
pub proof fn lemma_frame_cycle(c: nat, fif: nat, n: nat)
    requires
        fif >= 1,
        c < fif,
    ensures
        frame_after(c, fif, n) == (c + n) % fif,
        frame_after(c, fif, n) < fif,
    decreases n,
{
    vstd::arithmetic::div_mod::lemma_mod_division_less_than_divisor(c as int + n, fif as int);
    if n == 0 {
        vstd::arithmetic::div_mod::lemma_small_mod(c, fif);
    } else {
        lemma_frame_cycle(c, fif, (n - 1) as nat);
        let prev = frame_after(c, fif, (n - 1) as nat);
        assert(prev == ((c + n - 1) as nat) % fif);
        vstd::arithmetic::div_mod::lemma_mod_division_less_than_divisor(
            c as int + n - 1,
            fif as int,
        );
        if fif == 1 {
            vstd::arithmetic::div_mod::lemma_mod_self_0(fif as int);
            vstd::arithmetic::div_mod::lemma_small_mod(0, fif);
        } else {
            vstd::arithmetic::div_mod::lemma_small_mod(1, fif);
        }
        vstd::arithmetic::div_mod::lemma_add_mod_noop(c as int + n - 1, 1, fif as int);
        assert((prev + 1) % (fif as nat) == (c + n) % fif);
    }
}

/// The slot cursor cycles with period exactly `frames_in_flight`,
/// regardless of whether the draw calls succeed or fail: after
/// `frames_in_flight` draws it returns to where it was, and at no earlier
/// point.
pub proof fn lemma_frame_period(c: nat, fif: nat)
    requires
        fif >= 1,
        c < fif,
    ensures
        frame_after(c, fif, fif) == c,
        forall|j: nat| 0 < j < fif ==> #[trigger] frame_after(c, fif, j) != c,
{
    lemma_frame_cycle(c, fif, fif);
    vstd::arithmetic::div_mod::lemma_fundamental_div_mod_converse(
        c as int + fif,
        fif as int,
        1,
        c as int,
    );
    assert forall|j: nat| 0 < j < fif implies #[trigger] frame_after(c, fif, j) != c by {
        lemma_frame_cycle(c, fif, j);
        if c + j < fif {
            vstd::arithmetic::div_mod::lemma_small_mod((c + j) as nat, fif);
        } else {
            vstd::arithmetic::div_mod::lemma_fundamental_div_mod_converse(
                c as int + j,
                fif as int,
                1,
                c as int + j - fif,
            );
        }
    }
}

} // verus!
