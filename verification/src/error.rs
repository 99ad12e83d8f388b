//! Error taxonomy of the engine.
//!
//! Every fallible operation returns one of these tagged errors; nothing here
//! panics and nothing is retried internally.  Recovery policy belongs to the
//! caller, which typically tears the whole engine down and rebuilds it.

use vstd::prelude::*;

verus! {

/// Errors from the event-channel layer around the engine.
#[derive(Debug, Clone, Copy, PartialEq, Eq, Structural)]
pub enum ContextError {
    /// The event channel closed; the event thread may have terminated.
    EventChannelError,
    /// The start-signal channel closed; the event thread may have terminated.
    StartChannelError,
}

/// Errors from creating the native window.
#[derive(Debug, Clone, Copy, PartialEq, Eq, Structural)]
pub enum CreationError {
    /// The windowing layer failed to create the window.
    WindowCreationError,
}

/// Failures of engine construction: no usable adapter, queue, present mode
/// or surface capability.  All of these are fatal to construction.
#[derive(Debug, Clone, PartialEq, Eq)]
pub enum DeviceInitError {
    /// No adapter exposes a graphics-capable queue family that can also
    /// present to the surface.
    NoGraphicsQueue,
    /// None of the requested present modes is supported by the surface.
    NoSupportedPresentMode,
    /// The surface supports none of the composite-alpha modes the engine
    /// can use.
    NoCompositeAlpha,
    /// The surface cannot be used as a color attachment.
    ColorAttachmentUnsupported,
    /// A shader failed to compile; carries the compiler diagnostic.
    ShaderCompile(String),
    /// The device refused to create the graphics pipeline.
    PipelineCreation,
}

/// Failures of vertex/index buffer growth.  A failed growth leaves the old
/// buffers valid and unchanged.
#[derive(Debug, Clone, Copy, PartialEq, Eq, Structural)]
pub enum BufferGrowthError {
    /// The requested quad capacity cannot be addressed with 16-bit indices.
    CapacityTooLarge,
    /// The device could not allocate or bind the new buffers.
    AllocationFailed,
}

/// Failures of a single draw call.  `SwapchainInvalidated` is recoverable by
/// recreating the engine against the same window; the other variants report
/// which synchronization or transfer step failed.
#[derive(Debug, Clone, Copy, PartialEq, Eq, Structural)]
pub enum FrameError {
    /// The surface was reported lost or out of date while acquiring an image.
    SwapchainInvalidated,
    /// Growing the vertex/index buffers for the requested batch failed.
    BufferGrowth(BufferGrowthError),
    /// Waiting on the acquired image's in-flight fence failed.
    FenceWaitFailed,
    /// Resetting the acquired image's in-flight fence failed.
    FenceResetFailed,
    /// Mapping or writing the vertex buffer failed.
    VertexWriteFailed,
    /// Presenting the acquired image failed.
    PresentFailed,
}

/// Failures of loading one texture.  A failed load never affects previously
/// loaded textures or already-allocated descriptor sets.
#[derive(Debug, Clone, Copy, PartialEq, Eq, Structural)]
pub enum TextureError {
    /// The image bytes could not be decoded.
    ImageDecodeError,
    /// The descriptor pool has reached its fixed capacity of sets.
    DescriptorPoolExhausted,
    /// The device refused to create the sampler.
    SamplerCreationFailed,
    /// Uploading the decoded bitmap to the device failed.
    UploadFailed,
}

} // verus!
