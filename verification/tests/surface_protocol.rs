use windowhost::surface::DisplayMode;
use windowhost::surface::GraphicsCreationErrorClass;
use windowhost::surface::RenderSurface;
use windowhost::surface::SurfaceCommand;
use windowhost::surface::select_refresh_rate;

#[test]
fn resize_commands_follow_the_mandatory_order() {
    let mut s = RenderSurface::new(800, 600);
    let cmds = s.resize(1024, 768);
    assert_eq!(
        cmds,
        vec![
            SurfaceCommand::UnbindRenderTargets,
            SurfaceCommand::ReleaseTargetViews,
            SurfaceCommand::Flush,
            SurfaceCommand::ResizeSwapChainBuffers { width: 1024, height: 768 },
            SurfaceCommand::CreateRenderTargetView,
            SurfaceCommand::CreateDepthStencil { width: 1024, height: 768 },
            SurfaceCommand::SetFullViewport { width: 1024, height: 768 },
        ]
    );
    // The views are released strictly before the buffer resize is
    // requested.
    let release = cmds
        .iter()
        .position(|c| *c == SurfaceCommand::ReleaseTargetViews)
        .unwrap();
    let resize = cmds
        .iter()
        .position(|c| *c == SurfaceCommand::ResizeSwapChainBuffers { width: 1024, height: 768 })
        .unwrap();
    assert!(release < resize);
    assert_eq!(s.render_target_size(), (1024, 768));
    assert_eq!(s.depth_stencil_size(), (1024, 768));
}

#[test]
fn begin_and_end_frame_sequences() {
    let mut s = RenderSurface::new(640, 480);
    assert!(!s.is_rendering());
    let begin = s.begin_frame();
    assert_eq!(
        begin,
        vec![
            SurfaceCommand::ClearRenderTarget,
            SurfaceCommand::ClearDepthStencil,
            SurfaceCommand::BindRenderTargets,
            SurfaceCommand::SetPrimitiveTopology,
            SurfaceCommand::SetBlendState,
        ]
    );
    assert!(s.is_rendering());
    let end = s.end_frame();
    assert_eq!(end, vec![SurfaceCommand::UnbindRenderTargets, SurfaceCommand::Present]);
    assert!(!s.is_rendering());
}

#[test]
fn end_frame_without_begin_is_a_no_op() {
    let mut s = RenderSurface::new(640, 480);
    let end = s.end_frame();
    assert!(end.is_empty());
    assert!(!s.is_rendering());
    // A matched pair afterwards still works.
    let _ = s.begin_frame();
    let end = s.end_frame();
    assert_eq!(end.len(), 2);
    let end_again = s.end_frame();
    assert!(end_again.is_empty());
}

#[test]
fn refresh_rate_takes_the_last_matching_mode() {
    let modes = vec![
        DisplayMode { width: 800, height: 600, numerator: 60, denominator: 1 },
        DisplayMode { width: 1920, height: 1080, numerator: 144, denominator: 1 },
        DisplayMode { width: 800, height: 600, numerator: 75, denominator: 1 },
    ];
    assert_eq!(select_refresh_rate(&modes, 800, 600), (75, 1));
    assert_eq!(select_refresh_rate(&modes, 1920, 1080), (144, 1));
}

#[test]
fn refresh_rate_defaults_to_zero_without_a_match() {
    let modes = vec![DisplayMode { width: 800, height: 600, numerator: 60, denominator: 1 }];
    assert_eq!(select_refresh_rate(&modes, 1024, 768), (0, 0));
    assert_eq!(select_refresh_rate(&Vec::new(), 800, 600), (0, 0));
}

#[test]
fn creation_error_classes_describe_their_step() {
    assert_eq!(
        GraphicsCreationErrorClass::DXGIFactoryCreation.message(),
        "Unable to create DXGI factory"
    );
    assert_eq!(
        GraphicsCreationErrorClass::DeviceAndSwapChain.message(),
        "Unable to create device and swap chain"
    );
    assert_eq!(
        GraphicsCreationErrorClass::DepthStencilView.message(),
        "Unable to create depth stencil view"
    );
    assert_eq!(GraphicsCreationErrorClass::BlendState.message(), "Unable to create blend state");
}
