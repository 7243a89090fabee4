//! Presentation engine core: adapter selection, swapchain configuration and
//! lifecycle, and the per-frame acquire / submit / present protocol.
//!
//! Everything here works on plain values. The host program queries the driver,
//! hands the answers in, and performs the actions that come back.

pub mod device;
pub mod frame;
pub mod present_loop;
pub mod swapchain;

pub use device::{select_adapter, Adapter, DeviceKind, QueueFamily, QueueSelection, SelectError};
pub use frame::{
    AcquireResult, BeginError, FrameSlot, FrameSync, FrameSyncView, FrameToken, ImageHandle,
    PresentError, PresentOutcome, PresentResult, RetireError,
};
pub use present_loop::{LoopAction, LoopEvent, PresentLoop};
pub use swapchain::{
    choose_config, choose_extent, choose_image_count, choose_pre_transform, choose_present_mode,
    Extent, PresentMode, SurfaceCapabilities, SurfaceFormat, SwapchainConfig, SwapchainError,
    SwapchainManager, TRANSFORM_IDENTITY, UNDEFINED_EXTENT_WIDTH,
};
