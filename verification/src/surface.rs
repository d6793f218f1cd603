//! The render surface: the swap chain, the matched render-target and
//! depth-stencil pair, and the begin/end-frame protocol.
//!
//! The surface decides *what* the graphics device must do and in which
//! order; the device calls themselves are issued by the unverified
//! shell, which executes the command sequences these methods return,
//! in order. The resize sequence encodes a hard requirement of the
//! swap-chain contract: both target views are released before the
//! back buffers are resized, because a resize fails while any view
//! still references a buffer.

use vstd::prelude::*;

verus! {

/// Number of back buffers the swap chain rotates through.
pub const SWAP_CHAIN_BUFFERS: u32 = 3;

/// One operation for the shell to issue against the graphics device.
#[derive(Clone, Copy, Debug, PartialEq, Eq, Structural)]
pub enum SurfaceCommand {
    /// Unbind render target and depth-stencil from the pipeline.
    UnbindRenderTargets,
    /// Release the render-target view and the depth-stencil view.
    ReleaseTargetViews,
    /// Flush pending device work.
    Flush,
    /// Resize the swap chain's back buffers in place.
    ResizeSwapChainBuffers { width: u32, height: u32 },
    /// Recreate the render-target view from the current back buffer.
    CreateRenderTargetView,
    /// Create a depth-stencil buffer and view of the given size.
    CreateDepthStencil { width: u32, height: u32 },
    /// Set the full-window viewport rectangle.
    SetFullViewport { width: u32, height: u32 },
    /// Clear the render target.
    ClearRenderTarget,
    /// Clear the depth part of the depth-stencil view.
    ClearDepthStencil,
    /// Bind render target and depth-stencil to the pipeline.
    BindRenderTargets,
    /// Set the triangle-list primitive topology.
    SetPrimitiveTopology,
    /// Set the alpha blend state.
    SetBlendState,
    /// Present the swap chain, vsync-locked.
    Present,
}

/// Mathematical view of the surface.
pub ghost struct SurfaceView {
    /// Width of the swap-chain back buffers and render-target view.
    pub target_width: u32,
    /// Height of the swap-chain back buffers and render-target view.
    pub target_height: u32,
    /// Width of the depth-stencil buffer and view.
    pub depth_width: u32,
    /// Height of the depth-stencil buffer and view.
    pub depth_height: u32,
    /// Whether the render-target triple is present and ready to render.
    pub targets_ready: bool,
    /// Whether a frame is in progress.
    pub rendering: bool,
}

impl SurfaceView {
    /// The state of a freshly created surface.
    pub open spec fn init(width: u32, height: u32) -> SurfaceView {
        SurfaceView {
            target_width: width,
            target_height: height,
            depth_width: width,
            depth_height: height,
            targets_ready: true,
            rendering: false,
        }
    }

    /// The render-target set is a matched triple: whenever it is
    /// ready, the depth-stencil resources have the render target's
    /// size. It is never partially valid.
    pub open spec fn wf(self) -> bool {
        self.targets_ready ==> (self.depth_width == self.target_width && self.depth_height
            == self.target_height)
    }

    /// State after a committed resize: both halves of the triple are
    /// recreated at the new size.
    pub open spec fn resize(self, width: u32, height: u32) -> SurfaceView {
        SurfaceView {
            target_width: width,
            target_height: height,
            depth_width: width,
            depth_height: height,
            targets_ready: true,
            ..self
        }
    }

    /// State after a frame has begun.
    pub open spec fn begin_frame(self) -> SurfaceView {
        SurfaceView { rendering: true, ..self }
    }

    /// State after a frame has ended (a no-op when none was begun).
    pub open spec fn end_frame(self) -> SurfaceView {
        SurfaceView { rendering: false, ..self }
    }
}

/// The device operations of a committed resize, in their mandatory
/// order: unbind, release both views, flush, only then resize the
/// back buffers, then recreate the views and the window viewport.
pub open spec fn resize_commands(width: u32, height: u32) -> Seq<SurfaceCommand> {
    seq![
        SurfaceCommand::UnbindRenderTargets,
        SurfaceCommand::ReleaseTargetViews,
        SurfaceCommand::Flush,
        SurfaceCommand::ResizeSwapChainBuffers { width, height },
        SurfaceCommand::CreateRenderTargetView,
        SurfaceCommand::CreateDepthStencil { width, height },
        SurfaceCommand::SetFullViewport { width, height },
    ]
}

/// The device operations that begin a frame.
pub open spec fn begin_frame_commands() -> Seq<SurfaceCommand> {
    seq![
        SurfaceCommand::ClearRenderTarget,
        SurfaceCommand::ClearDepthStencil,
        SurfaceCommand::BindRenderTargets,
        SurfaceCommand::SetPrimitiveTopology,
        SurfaceCommand::SetBlendState,
    ]
}

/// The device operations that end a frame in progress.
pub open spec fn end_frame_commands() -> Seq<SurfaceCommand> {
    seq![SurfaceCommand::UnbindRenderTargets, SurfaceCommand::Present]
}

/// Owns the swap chain and the render-target/depth-stencil triple,
/// exposes the begin/end-frame and resize operations.
pub struct RenderSurface {
    target_width: u32,
    target_height: u32,
    depth_width: u32,
    depth_height: u32,
    targets_ready: bool,
    rendering: bool,
}

impl View for RenderSurface {
    type V = SurfaceView;

    closed spec fn view(&self) -> SurfaceView {
        SurfaceView {
            target_width: self.target_width,
            target_height: self.target_height,
            depth_width: self.depth_width,
            depth_height: self.depth_height,
            targets_ready: self.targets_ready,
            rendering: self.rendering,
        }
    }
}

impl RenderSurface {
    /// A surface whose swap chain and target triple were just created
    /// at the given client size.
    pub fn new(width: u32, height: u32) -> (r: RenderSurface)
        ensures
            r@ == SurfaceView::init(width, height),
            r@.wf(),
    {
        RenderSurface {
            target_width: width,
            target_height: height,
            depth_width: width,
            depth_height: height,
            targets_ready: true,
            rendering: false,
        }
    }

    /// Commits a resize: returns the device commands that tear the
    /// target triple down, resize the back buffers and rebuild the
    /// triple at the new size, in their mandatory order.
    pub fn resize(&mut self, width: u32, height: u32) -> (cmds: Vec<SurfaceCommand>)
        requires
            !old(self)@.rendering,
        ensures
            final(self)@ == old(self)@.resize(width, height),
            final(self)@.wf(),
            cmds@ == resize_commands(width, height),
    {
        self.target_width = width;
        self.target_height = height;
        self.depth_width = width;
        self.depth_height = height;
        self.targets_ready = true;
        let mut cmds: Vec<SurfaceCommand> = Vec::new();
        cmds.push(SurfaceCommand::UnbindRenderTargets);
        cmds.push(SurfaceCommand::ReleaseTargetViews);
        cmds.push(SurfaceCommand::Flush);
        cmds.push(SurfaceCommand::ResizeSwapChainBuffers { width, height });
        cmds.push(SurfaceCommand::CreateRenderTargetView);
        cmds.push(SurfaceCommand::CreateDepthStencil { width, height });
        cmds.push(SurfaceCommand::SetFullViewport { width, height });
        proof {
            assert(cmds@ =~= resize_commands(width, height));
        }
        cmds
    }

    /// Begins a frame: returns the commands that clear and bind the
    /// target triple and set the fixed pipeline state. Frames must
    /// not overlap.
    pub fn begin_frame(&mut self) -> (cmds: Vec<SurfaceCommand>)
        requires
            old(self)@.targets_ready,
            !old(self)@.rendering,
        ensures
            final(self)@ == old(self)@.begin_frame(),
            cmds@ == begin_frame_commands(),
    {
        self.rendering = true;
        let mut cmds: Vec<SurfaceCommand> = Vec::new();
        cmds.push(SurfaceCommand::ClearRenderTarget);
        cmds.push(SurfaceCommand::ClearDepthStencil);
        cmds.push(SurfaceCommand::BindRenderTargets);
        cmds.push(SurfaceCommand::SetPrimitiveTopology);
        cmds.push(SurfaceCommand::SetBlendState);
        proof {
            assert(cmds@ =~= begin_frame_commands());
        }
        cmds
    }

    /// Ends the frame in progress: unbind, then present. A call with
    /// no frame in progress is a deliberate no-op, so that a present
    /// is never issued with no bound targets.
    pub fn end_frame(&mut self) -> (cmds: Vec<SurfaceCommand>)
        ensures
            final(self)@ == old(self)@.end_frame(),
            cmds@ == if old(self)@.rendering {
                end_frame_commands()
            } else {
                Seq::<SurfaceCommand>::empty()
            },
    {
        let mut cmds: Vec<SurfaceCommand> = Vec::new();
        if self.rendering {
            self.rendering = false;
            cmds.push(SurfaceCommand::UnbindRenderTargets);
            cmds.push(SurfaceCommand::Present);
            proof {
                assert(cmds@ =~= end_frame_commands());
            }
        } else {
            proof {
                assert(cmds@ =~= Seq::<SurfaceCommand>::empty());
            }
        }
        cmds
    }

    /// Size of the swap-chain back buffers and render-target view.
    pub fn render_target_size(&self) -> (r: (u32, u32))
        ensures
            r.0 == self@.target_width,
            r.1 == self@.target_height,
    {
        (self.target_width, self.target_height)
    }

    /// Size of the depth-stencil buffer and view.
    pub fn depth_stencil_size(&self) -> (r: (u32, u32))
        ensures
            r.0 == self@.depth_width,
            r.1 == self@.depth_height,
    {
        (self.depth_width, self.depth_height)
    }

    /// Whether a frame is in progress.
    pub fn is_rendering(&self) -> (r: bool)
        ensures
            r == self@.rendering,
    {
        self.rendering
    }
}

/// The creation step at which surface construction failed. Each
/// construction failure is tagged with its step and is fatal: the
/// surface is not usable and creation is not retried.
#[derive(Clone, Copy, Debug, PartialEq, Eq, Structural)]
pub enum GraphicsCreationErrorClass {
    DXGIFactoryCreation,
    PrimaryAdapter,
    PrimaryOutput,
    DisplayModes,
    DeviceAndSwapChain,
    BackBuffer,
    RenderTargetView,
    DepthStencilBuffer,
    DepthStencilState,
    DepthStencilView,
    Rasterizer,
    BlendState,
    InfoQueue,
}

impl GraphicsCreationErrorClass {
    /// The description of this failed creation step.
    pub open spec fn spec_message(self) -> Seq<char> {
        match self {
            GraphicsCreationErrorClass::DXGIFactoryCreation => "Unable to create DXGI factory"@,
            GraphicsCreationErrorClass::PrimaryAdapter => "Unable to get primary adapter"@,
            GraphicsCreationErrorClass::PrimaryOutput => "Unable to get primary output"@,
            GraphicsCreationErrorClass::DisplayModes => "Unable to get list of display modes"@,
            GraphicsCreationErrorClass::DeviceAndSwapChain => "Unable to create device and swap chain"@,
            GraphicsCreationErrorClass::BackBuffer => "Unable to get back buffer"@,
            GraphicsCreationErrorClass::RenderTargetView => "Unable to create render target view"@,
            GraphicsCreationErrorClass::DepthStencilBuffer => "Unable to create depth stencil buffer"@,
            GraphicsCreationErrorClass::DepthStencilState => "Unable to create depth stencil state"@,
            GraphicsCreationErrorClass::DepthStencilView => "Unable to create depth stencil view"@,
            GraphicsCreationErrorClass::Rasterizer => "Unable to create rasterizer"@,
            GraphicsCreationErrorClass::BlendState => "Unable to create blend state"@,
            GraphicsCreationErrorClass::InfoQueue => "Unable to create info queue"@,
        }
    }

    /// The description of this failed creation step.
    pub fn message(&self) -> (r: &'static str)
        ensures
            r@ == self.spec_message(),
    {
        match self {
            GraphicsCreationErrorClass::DXGIFactoryCreation => "Unable to create DXGI factory",
            GraphicsCreationErrorClass::PrimaryAdapter => "Unable to get primary adapter",
            GraphicsCreationErrorClass::PrimaryOutput => "Unable to get primary output",
            GraphicsCreationErrorClass::DisplayModes => "Unable to get list of display modes",
            GraphicsCreationErrorClass::DeviceAndSwapChain => "Unable to create device and swap chain",
            GraphicsCreationErrorClass::BackBuffer => "Unable to get back buffer",
            GraphicsCreationErrorClass::RenderTargetView => "Unable to create render target view",
            GraphicsCreationErrorClass::DepthStencilBuffer => "Unable to create depth stencil buffer",
            GraphicsCreationErrorClass::DepthStencilState => "Unable to create depth stencil state",
            GraphicsCreationErrorClass::DepthStencilView => "Unable to create depth stencil view",
            GraphicsCreationErrorClass::Rasterizer => "Unable to create rasterizer",
            GraphicsCreationErrorClass::BlendState => "Unable to create blend state",
            GraphicsCreationErrorClass::InfoQueue => "Unable to create info queue",
        }
    }
}

/// One display mode of the primary output, as plain values.
#[derive(Clone, Copy, Debug, PartialEq, Eq, Structural)]
pub struct DisplayMode {
    /// Mode width in pixels.
    pub width: u32,
    /// Mode height in pixels.
    pub height: u32,
    /// Refresh-rate numerator.
    pub numerator: u32,
    /// Refresh-rate denominator.
    pub denominator: u32,
}

/// The refresh rate the swap chain is created with: that of the last
/// listed mode matching the client size, or zero over zero when no
/// mode matches.
pub open spec fn spec_select_refresh_rate(modes: Seq<DisplayMode>, width: u32, height: u32) -> (
    u32,
    u32,
)
    decreases modes.len(),
{
    if modes.len() == 0 {
        (0u32, 0u32)
    } else if modes.last().width == width && modes.last().height == height {
        (modes.last().numerator, modes.last().denominator)
    } else {
        spec_select_refresh_rate(modes.drop_last(), width, height)
    }
}

/// Picks the refresh rate for the given client size out of the
/// display-mode list the shell read from the primary output.
pub fn select_refresh_rate(modes: &Vec<DisplayMode>, width: u32, height: u32) -> (r: (u32, u32))
    ensures
        r == spec_select_refresh_rate(modes@, width, height),
{
    let mut numerator: u32 = 0;
    let mut denominator: u32 = 0;
    let mut i: usize = 0;
    while i < modes.len()
        invariant
            i <= modes.len(),
            (numerator, denominator) == spec_select_refresh_rate(
                modes@.subrange(0, i as int),
                width,
                height,
            ),
        decreases modes.len() - i,
    {
        if modes[i].width == width && modes[i].height == height {
            numerator = modes[i].numerator;
            denominator = modes[i].denominator;
        }
        i += 1;
        proof {
            let pre = modes@.subrange(0, i - 1);
            let cur = modes@.subrange(0, i as int);
            assert(cur.drop_last() =~= pre);
            assert(cur.last() == modes@[i - 1]);
        }
    }
    proof {
        assert(modes@.subrange(0, modes@.len() as int) =~= modes@);
    }
    (numerator, denominator)
}

} // verus!
