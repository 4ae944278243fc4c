//! The presentation surface: how the window's drawable is configured.
//!
//! A surface is configured once, for the size that the window had at the
//! start. Nothing here configures it again, so after a resize the surface no
//! longer has the size of its window.

use vstd::prelude::*;

verus! {

/// Inner size of a window in physical pixels.
#[derive(Clone, Copy, Debug, PartialEq, Eq, Structural)]
pub struct WindowSize {
    pub width: u32,
    pub height: u32,
}

/// What textures of the surface may be used for.
#[derive(Clone, Copy, Debug, PartialEq, Eq, Structural)]
pub struct TextureUsages {
    pub copy_src: bool,
    pub copy_dst: bool,
    pub texture_binding: bool,
    pub storage_binding: bool,
    pub render_attachment: bool,
}

impl TextureUsages {
    /// Holds when the textures can be rendered to and used for nothing else.
    pub open spec fn render_attachment_only(self) -> bool {
        &&& self.render_attachment
        &&& !self.copy_src
        &&& !self.copy_dst
        &&& !self.texture_binding
        &&& !self.storage_binding
    }
}

/// Pixel formats a window surface commonly offers.
#[derive(Clone, Copy, Debug, PartialEq, Eq, Structural)]
pub enum TextureFormat {
    Rgba8Unorm,
    Rgba8UnormSrgb,
    Bgra8Unorm,
    Bgra8UnormSrgb,
}

/// How finished frames are handed to the display.
#[derive(Clone, Copy, Debug, PartialEq, Eq, Structural)]
pub enum PresentMode {
    AutoVsync,
    AutoNoVsync,
    Fifo,
    FifoRelaxed,
    Immediate,
    /// A single-frame queue: a newer frame replaces the one still waiting.
    Mailbox,
}

/// How the surface's alpha channel is treated by the compositor.
#[derive(Clone, Copy, Debug, PartialEq, Eq, Structural)]
pub enum CompositeAlphaMode {
    /// The platform picks opaque or inherited.
    Auto,
    Opaque,
    PreMultiplied,
    PostMultiplied,
    Inherit,
}

/// Everything a surface is configured with.
#[derive(Clone, Copy, Debug, PartialEq, Eq, Structural)]
pub struct SurfaceConfiguration {
    pub usage: TextureUsages,
    pub format: TextureFormat,
    pub width: u32,
    pub height: u32,
    pub present_mode: PresentMode,
    pub alpha_mode: CompositeAlphaMode,
    /// Number of additional formats that views of the surface textures may take.
    pub view_format_count: u32,
}

/// The configuration of a surface that fills a window of the given size.
pub open spec fn configuration_for(size: WindowSize) -> SurfaceConfiguration {
    SurfaceConfiguration {
        usage: TextureUsages {
            copy_src: false,
            copy_dst: false,
            texture_binding: false,
            storage_binding: false,
            render_attachment: true,
        },
        format: TextureFormat::Bgra8Unorm,
        width: size.width,
        height: size.height,
        present_mode: PresentMode::Mailbox,
        alpha_mode: CompositeAlphaMode::Auto,
        view_format_count: 0,
    }
}

/// Fixes the surface configuration for a window whose inner size was measured
/// as `size`. The size is taken as it is, also where a side is zero; nothing
/// else depends on it.
pub fn surface_configuration(size: WindowSize) -> (config: SurfaceConfiguration)
    ensures
        config == configuration_for(size),
        config.width == size.width,
        config.height == size.height,
        config.usage.render_attachment_only(),
{
    SurfaceConfiguration {
        usage: TextureUsages {
            copy_src: false,
            copy_dst: false,
            texture_binding: false,
            storage_binding: false,
            render_attachment: true,
        },
        format: TextureFormat::Bgra8Unorm,
        width: size.width,
        height: size.height,
        present_mode: PresentMode::Mailbox,
        alpha_mode: CompositeAlphaMode::Auto,
        view_format_count: 0,
    }
}

} // verus!
