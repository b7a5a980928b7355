//! What the engine is started with.

use vstd::prelude::*;
use crate::surface::{Size, HEIGHT, WIDTH};

verus! {

/// The low-level graphics interface the device is opened through.
#[derive(Clone, Copy, Debug, PartialEq, Eq, Structural)]
pub enum Backend {
    Vulkan,
    Metal,
    Dx12,
    Dx11,
    Gl,
}

/// Which adapter to prefer where the machine has several.
#[derive(Clone, Copy, Debug, PartialEq, Eq, Structural)]
pub enum PowerPreference {
    LowPower,
    HighPerformance,
}

/// The window and the device the engine asks for at startup.
#[derive(Clone, Debug)]
pub struct EngineConfig {
    pub width: u32,
    pub height: u32,
    pub title: String,
    pub backend: Backend,
    pub power_preference: PowerPreference,
}

impl EngineConfig {
    /// The size of the window to create.
    pub open spec fn size(self) -> Size {
        Size { width: self.width, height: self.height }
    }

    /// The size of the window to create.
    pub fn window_size(&self) -> (size: Size)
        ensures
            size == self.size(),
    {
        Size { width: self.width, height: self.height }
    }
}

impl Default for EngineConfig {
    /// A window of 1280 by 720 pixels titled `wgpu-engine`, on Vulkan, on the
    /// high-performance adapter.
    fn default() -> (config: EngineConfig)
        ensures
            config.width == WIDTH,
            config.height == HEIGHT,
            config.title@ == "wgpu-engine"@,
            config.backend == Backend::Vulkan,
            config.power_preference == PowerPreference::HighPerformance,
    {
        EngineConfig {
            width: WIDTH,
            height: HEIGHT,
            title: "wgpu-engine".to_owned(),
            backend: Backend::Vulkan,
            power_preference: PowerPreference::HighPerformance,
        }
    }
}

} // verus!
