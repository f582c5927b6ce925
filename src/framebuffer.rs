use vstd::prelude::*;

use crate::error::SurfaceError;

verus! {

/// Pixel layout of the color attachment.
#[derive(Clone, Copy, Debug, PartialEq, Eq, Structural)]
pub enum ColorFormat {
    /// Eight bits per channel, red, green, blue, alpha.
    Rgba8,
}

/// Where the first row of the render target lies.
#[derive(Clone, Copy, Debug, PartialEq, Eq, Structural)]
pub enum SurfaceOrigin {
    BottomLeft,
    TopLeft,
}

/// What describes the framebuffer that a window's native surface renders into.
#[derive(Clone, Copy, Debug, PartialEq, Eq, Structural)]
pub struct FramebufferDescriptor {
    pub framebuffer_id: u32,
    pub color_format: ColorFormat,
    pub sample_count: Option<usize>,
    pub stencil_bits: usize,
}

/// Everything needed to build a GPU render target that matches the window.
#[derive(Clone, Copy, Debug, PartialEq, Eq, Structural)]
pub struct RenderTargetDesc {
    pub width: i32,
    pub height: i32,
    pub framebuffer: FramebufferDescriptor,
    pub origin: SurfaceOrigin,
}

/// The descriptor for a queried framebuffer binding, multisample count and
/// stencil depth; `None` where the binding is negative and so names no
/// framebuffer.
pub open spec fn descriptor_of(binding: i32, multisampling: Option<u16>, stencil_bits: u8) -> Option<
    FramebufferDescriptor,
> {
    if binding < 0 {
        None
    } else {
        Some(
            FramebufferDescriptor {
                framebuffer_id: binding as u32,
                color_format: ColorFormat::Rgba8,
                sample_count: match multisampling {
                    Some(s) => Some(s as usize),
                    None => None,
                },
                stencil_bits: stencil_bits as usize,
            },
        )
    }
}

/// Builds the framebuffer descriptor from the values read while the context is
/// current: the bound framebuffer id, the pixel format's multisample count and
/// its stencil depth. The color format is always 8-bit RGBA.
pub fn describe_framebuffer(binding: i32, multisampling: Option<u16>, stencil_bits: u8) -> (r: Result<
    FramebufferDescriptor,
    SurfaceError,
>)
    ensures
        binding < 0 <==> r is Err,
        r is Err ==> r == Err::<FramebufferDescriptor, SurfaceError>(SurfaceError::SetupFailure),
        r is Ok ==> Some(r->Ok_0) == descriptor_of(binding, multisampling, stencil_bits),
{
    if binding < 0 {
        return Err(SurfaceError::SetupFailure);
    }
    let sample_count: Option<usize> = match multisampling {
        Some(s) => Some(s as usize),
        None => None,
    };
    Ok(
        FramebufferDescriptor {
            framebuffer_id: binding as u32,
            color_format: ColorFormat::Rgba8,
            sample_count,
            stencil_bits: stencil_bits as usize,
        },
    )
}

/// Reading the same framebuffer state twice gives the same descriptor: the
/// descriptor depends on the queried binding, multisample count and stencil
/// depth alone.
pub proof fn lemma_descriptor_repeatable(
    binding: i32,
    multisampling: Option<u16>,
    stencil_bits: u8,
    binding2: i32,
    multisampling2: Option<u16>,
    stencil_bits2: u8,
)
    requires
        binding == binding2,
        multisampling == multisampling2,
        stencil_bits == stencil_bits2,
    ensures
        descriptor_of(binding, multisampling, stencil_bits) == descriptor_of(
            binding2,
            multisampling2,
            stencil_bits2,
        ),
{
}

/// The render target for a window of the given drawable size backed by the
/// given framebuffer; `None` where a dimension does not fit in `i32`.
pub open spec fn target_desc_of(width: u32, height: u32, framebuffer: FramebufferDescriptor) -> Option<
    RenderTargetDesc,
> {
    if width > i32::MAX || height > i32::MAX {
        None
    } else {
        Some(
            RenderTargetDesc {
                width: width as i32,
                height: height as i32,
                framebuffer,
                origin: SurfaceOrigin::BottomLeft,
            },
        )
    }
}

/// Describes the render target that matches a window of the given drawable
/// size: same dimensions, the given framebuffer, origin at the bottom left.
pub fn render_target_desc(width: u32, height: u32, framebuffer: FramebufferDescriptor) -> (r: Result<
    RenderTargetDesc,
    SurfaceError,
>)
    ensures
        (width > i32::MAX || height > i32::MAX) <==> r is Err,
        r is Err ==> r == Err::<RenderTargetDesc, SurfaceError>(SurfaceError::SetupFailure),
        r is Ok ==> Some(r->Ok_0) == target_desc_of(width, height, framebuffer),
{
    if width > i32::MAX as u32 || height > i32::MAX as u32 {
        return Err(SurfaceError::SetupFailure);
    }
    Ok(
        RenderTargetDesc {
            width: width as i32,
            height: height as i32,
            framebuffer,
            origin: SurfaceOrigin::BottomLeft,
        },
    )
}

} // verus!
