//! The presentation chain as data: what to ask of the surface, how the
//! render target and the framebuffers are laid out, and which commands draw
//! one frame. The caller creates the GPU objects that these plans describe.
//!
//! `P` is the caller's pixel-format value and `A` its composite-alpha value;
//! both are only ever picked and carried along.

use vstd::prelude::*;

verus! {

/// Size of the surface in pixels.
#[derive(Clone, Copy, Debug, PartialEq, Eq, Structural)]
pub struct Extent {
    pub width: u32,
    pub height: u32,
}

/// The region of the framebuffer that is rendered to, in whole pixels and
/// whole depth units.
#[derive(Clone, Copy, Debug, PartialEq, Eq, Structural)]
pub struct Viewport {
    pub x: u32,
    pub y: u32,
    pub width: u32,
    pub height: u32,
    pub min_depth: u32,
    pub max_depth: u32,
}

/// What the surface reports of itself.
#[derive(Debug)]
pub struct SurfaceReport<P, A> {
    /// Fewest images a chain on this surface may have.
    pub min_image_count: u32,
    /// Supported pixel formats, in reported order.
    pub formats: Vec<P>,
    /// Supported composite-alpha modes, in reported order.
    pub composite_alphas: Vec<A>,
}

/// Why no chain can be planned on a surface.
#[derive(Clone, Copy, Debug, PartialEq, Eq, Structural)]
pub enum ChainError {
    /// The surface reports no composite-alpha mode.
    NoCompositeAlpha,
    /// The surface reports no pixel format.
    NoFormat,
}

/// What to create the chain with.
#[derive(Clone, Copy, Debug)]
pub struct SwapchainConfig<P, A> {
    pub min_image_count: u32,
    pub image_format: P,
    pub image_extent: Extent,
    pub composite_alpha: A,
}

/// What happens to an attachment's old content when the pass begins.
#[derive(Clone, Copy, Debug, PartialEq, Eq, Structural)]
pub enum LoadOp {
    Clear,
}

/// What happens to an attachment's content when the pass ends.
#[derive(Clone, Copy, Debug, PartialEq, Eq, Structural)]
pub enum StoreOp {
    Store,
    DontCare,
}

/// Pixel format of an attachment.
#[derive(Clone, Copy, Debug)]
pub enum AttachmentFormat<P> {
    /// The chain's own image format.
    Chain(P),
    /// Sixteen-bit normalised depth.
    Depth16,
}

/// One attachment of the render target.
#[derive(Clone, Copy, Debug)]
pub struct Attachment<P> {
    pub format: AttachmentFormat<P>,
    pub samples: u32,
    pub load_op: LoadOp,
    pub store_op: StoreOp,
}

/// The render target of the single pass: one colour attachment, one depth
/// attachment.
#[derive(Clone, Copy, Debug)]
pub struct RenderPassDescription<P> {
    pub color: Attachment<P>,
    pub depth_stencil: Attachment<P>,
}

/// The two views a framebuffer pairs: the chain image it draws into and the
/// depth image, of which there is one for all framebuffers.
#[derive(Clone, Copy, Debug, PartialEq, Eq, Structural)]
pub struct FramebufferLayout {
    pub color_image: usize,
    pub depth_image: usize,
}

/// A colour; each channel is the bit pattern of a 32-bit float.
#[derive(Clone, Copy, Debug, PartialEq, Eq, Structural)]
pub struct Rgba {
    pub r: u32,
    pub g: u32,
    pub b: u32,
    pub a: u32,
}

/// One recorded GPU operation.
#[derive(Clone, Copy, Debug, PartialEq, Eq, Structural)]
pub enum Command {
    /// Begin the pass on a framebuffer, clearing colour and depth. The
    /// depth value is the bit pattern of a 32-bit float.
    BeginRenderPass { framebuffer: usize, clear_color: Rgba, clear_depth: u32 },
    BindPipeline,
    /// Bind the geometry at the given binding.
    BindVertexBuffers { first_binding: u32 },
    /// Bind the per-frame uniform data at the given set.
    BindDescriptorSets { first_set: u32 },
    Draw { vertex_count: u32, instance_count: u32, first_vertex: u32, first_instance: u32 },
    EndRenderPass,
}

/// Bit pattern of `0.22f32`, the background grey.
pub const BACKGROUND_GREY: u32 = 0x3E6147AE;

/// Bit pattern of `1.0f32`.
pub const ONE: u32 = 0x3F80_0000;

/// The chain plan for a surface: fewest images, first format, first
/// composite-alpha mode, the window's extent.
pub open spec fn swapchain_for<P, A>(report: SurfaceReport<P, A>, dimensions: Extent) -> Result<
    SwapchainConfig<P, A>,
    ChainError,
> {
    if report.composite_alphas@.len() == 0 {
        Err(ChainError::NoCompositeAlpha)
    } else if report.formats@.len() == 0 {
        Err(ChainError::NoFormat)
    } else {
        Ok(
            SwapchainConfig {
                min_image_count: report.min_image_count,
                image_format: report.formats@[0],
                image_extent: dimensions,
                composite_alpha: report.composite_alphas@[0],
            },
        )
    }
}

/// The render target for a chain of the given format.
pub open spec fn render_pass_for<P>(image_format: P) -> RenderPassDescription<P> {
    RenderPassDescription {
        color: Attachment {
            format: AttachmentFormat::Chain(image_format),
            samples: 1,
            load_op: LoadOp::Clear,
            store_op: StoreOp::Store,
        },
        depth_stencil: Attachment {
            format: AttachmentFormat::Depth16,
            samples: 1,
            load_op: LoadOp::Clear,
            store_op: StoreOp::DontCare,
        },
    }
}

/// One framebuffer per chain image, all on depth image 0.
pub open spec fn framebuffers_for(image_count: nat) -> Seq<FramebufferLayout> {
    Seq::new(image_count, |i: int| FramebufferLayout { color_image: i as usize, depth_image: 0 })
}

/// The whole surface, depth from 0 to 1.
pub open spec fn viewport_for(extent: Extent) -> Viewport {
    Viewport {
        x: 0,
        y: 0,
        width: extent.width,
        height: extent.height,
        min_depth: 0,
        max_depth: 1,
    }
}

/// The commands that draw one frame into `framebuffer`.
pub open spec fn commands_for(framebuffer: usize, vertex_count: u32) -> Seq<Command> {
    seq![
        Command::BeginRenderPass {
            framebuffer,
            clear_color: Rgba { r: BACKGROUND_GREY, g: BACKGROUND_GREY, b: BACKGROUND_GREY, a: ONE },
            clear_depth: ONE,
        },
        Command::BindPipeline,
        Command::BindVertexBuffers { first_binding: 0 },
        Command::BindDescriptorSets { first_set: 0 },
        Command::Draw { vertex_count, instance_count: 1, first_vertex: 0, first_instance: 0 },
        Command::EndRenderPass,
    ]
}

/// The generation after `generation`; it starts over after the last one.
pub open spec fn next_generation(generation: u64) -> u64 {
    if generation == u64::MAX {
        0
    } else {
        (generation + 1) as u64
    }
}

/// The presentation chain in use.
#[derive(Debug)]
pub struct Renderer<P, A> {
    pub swapchain: SwapchainConfig<P, A>,
    pub render_pass: RenderPassDescription<P>,
    pub framebuffers: Vec<FramebufferLayout>,
    pub viewport: Viewport,
    /// Counts the rebuilds; what was built for an older generation is stale.
    pub generation: u64,
}

impl<P: Copy, A: Copy> Renderer<P, A> {
    /// Everything is laid out for `config` and as many images as there are
    /// framebuffers.
    pub open spec fn well_formed(&self) -> bool {
        &&& self.render_pass == render_pass_for(self.swapchain.image_format)
        &&& self.framebuffers@ == framebuffers_for(self.framebuffers@.len())
        &&& self.viewport == viewport_for(self.swapchain.image_extent)
    }

    /// Plans the chain for a surface of the given size.
    pub fn create_swapchain(report: &SurfaceReport<P, A>, dimensions: Extent) -> (config: Result<
        SwapchainConfig<P, A>,
        ChainError,
    >)
        ensures
            config == swapchain_for(*report, dimensions),
    {
        if report.composite_alphas.len() == 0 {
            Err(ChainError::NoCompositeAlpha)
        } else if report.formats.len() == 0 {
            Err(ChainError::NoFormat)
        } else {
            Ok(
                SwapchainConfig {
                    min_image_count: report.min_image_count,
                    image_format: report.formats[0],
                    image_extent: dimensions,
                    composite_alpha: report.composite_alphas[0],
                },
            )
        }
    }

    /// Describes the render target for a chain of the given format.
    pub fn create_render_pass(image_format: P) -> (pass: RenderPassDescription<P>)
        ensures
            pass == render_pass_for(image_format),
    {
        RenderPassDescription {
            color: Attachment {
                format: AttachmentFormat::Chain(image_format),
                samples: 1,
                load_op: LoadOp::Clear,
                store_op: StoreOp::Store,
            },
            depth_stencil: Attachment {
                format: AttachmentFormat::Depth16,
                samples: 1,
                load_op: LoadOp::Clear,
                store_op: StoreOp::DontCare,
            },
        }
    }

    /// Lays out one framebuffer per chain image, each pairing its image with
    /// the one shared depth image.
    pub fn create_framebuffers(image_count: usize) -> (layouts: Vec<FramebufferLayout>)
        ensures
            layouts@ == framebuffers_for(image_count as nat),
    {
        let mut layouts: Vec<FramebufferLayout> = Vec::new();
        let mut i: usize = 0;
        while i < image_count
            invariant
                i <= image_count,
                layouts@ == framebuffers_for(i as nat),
            decreases image_count - i,
        {
            layouts.push(FramebufferLayout { color_image: i, depth_image: 0 });
            assert(layouts@ =~= framebuffers_for((i + 1) as nat));
            i += 1;
        }
        layouts
    }

    /// The first chain: generation 0, laid out for `config` and the images
    /// the surface handed out.
    pub fn new(config: SwapchainConfig<P, A>, image_count: usize) -> (renderer: Self)
        ensures
            renderer.swapchain == config,
            renderer.framebuffers@.len() == image_count,
            renderer.generation == 0,
            renderer.well_formed(),
    {
        Renderer {
            swapchain: config,
            render_pass: Self::create_render_pass(config.image_format),
            framebuffers: Self::create_framebuffers(image_count),
            viewport: Viewport {
                x: 0,
                y: 0,
                width: config.image_extent.width,
                height: config.image_extent.height,
                min_depth: 0,
                max_depth: 1,
            },
            generation: 0,
        }
    }

    /// Replaces the chain after the surface went stale or changed size:
    /// everything is laid out anew and the generation moves on.
    pub fn rebuild(&mut self, config: SwapchainConfig<P, A>, image_count: usize)
        ensures
            final(self).swapchain == config,
            final(self).framebuffers@.len() == image_count,
            final(self).generation == next_generation(old(self).generation),
            final(self).well_formed(),
    {
        let generation = if self.generation == u64::MAX {
            0
        } else {
            self.generation + 1
        };
        let mut next = Self::new(config, image_count);
        next.generation = generation;
        *self = next;
    }

    /// Whether something built for `generation` still fits this chain.
    pub fn is_current(&self, generation: u64) -> (current: bool)
        ensures
            current == (generation == self.generation),
    {
        generation == self.generation
    }

    /// Records the draw of `vertex_count` vertices once per framebuffer.
    pub fn create_command_buffer(&self, vertex_count: u32) -> (buffers: Vec<Vec<Command>>)
        ensures
            buffers@.len() == self.framebuffers@.len(),
            forall|i: int|
                0 <= i < buffers@.len() ==> (#[trigger] buffers@[i])@ == commands_for(
                    i as usize,
                    vertex_count,
                ),
    {
        let mut buffers: Vec<Vec<Command>> = Vec::new();
        let mut i: usize = 0;
        while i < self.framebuffers.len()
            invariant
                i <= self.framebuffers.len(),
                buffers@.len() == i,
                forall|k: int|
                    0 <= k < i ==> (#[trigger] buffers@[k])@ == commands_for(
                        k as usize,
                        vertex_count,
                    ),
            decreases self.framebuffers.len() - i,
        {
            let mut commands: Vec<Command> = Vec::new();
            commands.push(
                Command::BeginRenderPass {
                    framebuffer: i,
                    clear_color: Rgba { r: BACKGROUND_GREY, g: BACKGROUND_GREY, b: BACKGROUND_GREY, a: ONE },
                    clear_depth: ONE,
                },
            );
            commands.push(Command::BindPipeline);
            commands.push(Command::BindVertexBuffers { first_binding: 0 });
            commands.push(Command::BindDescriptorSets { first_set: 0 });
            commands.push(
                Command::Draw { vertex_count, instance_count: 1, first_vertex: 0, first_instance: 0 },
            );
            commands.push(Command::EndRenderPass);
            assert(commands@ =~= commands_for(i, vertex_count));
            buffers.push(commands);
            i += 1;
        }
        buffers
    }
}

} // verus!
