use glutin_egl::context::EglContext;
use glutin_egl::error::{DeviceError, SurfaceError};
use glutin_egl::gl::{Blit, Capability, Command, Framebuffer, FramebufferTarget, Renderbuffer};
use glutin_egl::srgb::SrgbFrameBufferKind;
use glutin_egl::surface::{
    AcquiredSurfaceTexture, Configuring, CopyExtent, Extent3d, PendingRenderbuffer, Surface,
    SurfaceConfiguration, SurfaceRequest, Texture, TextureFormat, TextureFormatDesc, TextureInner,
    TextureSampleType, WindowKind, WindowSystemInterface, ZeroExtent,
};

type TestSurface = Surface<(), char, (), u8, u64, &'static str>;

const DESC: TextureFormatDesc = TextureFormatDesc { internal: 0x8C43, external: 0x1908, data_type: 0x1401 };

fn surface(srgb_kind: SrgbFrameBufferKind) -> TestSurface {
    Surface {
        egl: EglContext { context: (), version: (1, 5), display: 'd', pbuffer: None },
        wsi: WindowSystemInterface { kind: WindowKind::Wayland },
        config: 9,
        presentable: true,
        raw_window_handle: 77,
        swapchain: None,
        srgb_kind,
    }
}

fn config(width: u32, height: u32, srgb: bool) -> SurfaceConfiguration {
    SurfaceConfiguration {
        extent: Extent3d { width, height, depth_or_array_layers: 1 },
        format: TextureFormat { id: 18, srgb },
    }
}

fn fill(surface: &mut TestSurface, window: &'static str, config: SurfaceConfiguration, name: u32) {
    let pending = PendingRenderbuffer { surface: window, config, format_desc: DESC };
    let (pending, _) = pending.renderbuffer_created(Some(Renderbuffer(name))).unwrap();
    let (swapchain, _) = pending.framebuffer_created(Some(Framebuffer(name + 1))).unwrap();
    surface.install(swapchain);
}

fn texture(name: u32, config: SurfaceConfiguration) -> Texture {
    Texture {
        inner: TextureInner::Renderbuffer { raw: Renderbuffer(name) },
        array_layer_count: 1,
        mip_level_count: 1,
        format: config.format,
        format_desc: DESC,
        copy_size: CopyExtent { width: config.extent.width, height: config.extent.height, depth: 1 },
        drop_guard: None,
    }
}

fn created(next: Configuring<&'static str>) -> SurfaceRequest {
    match next {
        Configuring::Create(pending) => pending.request,
        other => panic!("{other:?}"),
    }
}

#[test]
fn srgb_support_is_known() {
    assert!(!surface(SrgbFrameBufferKind::Unsupported).supports_srgb());
    assert!(surface(SrgbFrameBufferKind::Core).supports_srgb());
    assert!(surface(SrgbFrameBufferKind::Khr).supports_srgb());
}

#[test]
fn first_configuration_asks_for_a_window_surface() {
    let mut unconfigured = surface(SrgbFrameBufferKind::Core);
    let (next, commands) = unconfigured.configure(&config(640, 480, true));
    assert_eq!(commands, vec![]);
    assert_eq!(
        created(next),
        SurfaceRequest { single_buffer: false, srgb: Some(true), width: 640, height: 480 }
    );
    assert!(unconfigured.swapchain.is_none());
}

#[test]
fn srgb_is_asked_for_where_it_matters() {
    let srgb = |kind, format_is_srgb| {
        created(surface(kind).configure(&config(1, 1, format_is_srgb)).0).srgb
    };
    assert_eq!(srgb(SrgbFrameBufferKind::Core, true), Some(true));
    assert_eq!(srgb(SrgbFrameBufferKind::Khr, true), Some(true));
    assert_eq!(srgb(SrgbFrameBufferKind::Unsupported, true), None);
    assert_eq!(srgb(SrgbFrameBufferKind::Core, false), None);
    assert_eq!(srgb(SrgbFrameBufferKind::Unsupported, false), None);
}

#[test]
fn window_surfaces_have_a_size() {
    let reject = |width, height| {
        match surface(SrgbFrameBufferKind::Core).configure(&config(width, height, false)).0 {
            Configuring::Reject(side) => side,
            other => panic!("{other:?}"),
        }
    };
    assert_eq!(reject(0, 480), ZeroExtent::Width);
    assert_eq!(reject(640, 0), ZeroExtent::Height);
    assert_eq!(reject(0, 0), ZeroExtent::Width);
}

#[test]
fn configuring_gives_the_renderbuffer_memory() {
    let pending = PendingRenderbuffer {
        surface: "window",
        config: config(640, 480, true),
        format_desc: DESC,
    };
    let (pending, commands) = pending.renderbuffer_created(Some(Renderbuffer(5))).unwrap();
    assert_eq!(
        commands,
        vec![
            Command::BindRenderbuffer(Some(Renderbuffer(5))),
            Command::RenderbufferStorage { format: 0x8C43, width: 640, height: 480 },
        ]
    );
    let (swapchain, commands) = pending.framebuffer_created(Some(Framebuffer(6))).unwrap();
    assert_eq!(
        commands,
        vec![
            Command::BindFramebuffer(FramebufferTarget::Read, Some(Framebuffer(6))),
            Command::AttachColor(FramebufferTarget::Read, Some(Renderbuffer(5))),
            Command::BindRenderbuffer(None),
            Command::BindFramebuffer(FramebufferTarget::Read, None),
        ]
    );
    assert_eq!(swapchain.surface, "window");
    assert_eq!(swapchain.renderbuffer, Renderbuffer(5));
    assert_eq!(swapchain.framebuffer, Framebuffer(6));
    assert_eq!(swapchain.extent, config(640, 480, true).extent);
    assert_eq!(swapchain.format, config(640, 480, true).format);
    assert_eq!(swapchain.format_desc, DESC);
    assert_eq!(swapchain.sample_type, TextureSampleType::Float { filterable: false });
}

#[test]
fn configuring_fails_without_memory() {
    let pending = || PendingRenderbuffer {
        surface: "window",
        config: config(640, 480, true),
        format_desc: DESC,
    };
    let expected = SurfaceError::Device(DeviceError::OutOfMemory);
    assert_eq!(pending().renderbuffer_created(None).unwrap_err(), expected);
    let (waiting, _) = pending().renderbuffer_created(Some(Renderbuffer(5))).unwrap();
    assert_eq!(waiting.framebuffer_created(None).unwrap_err(), expected);
}

#[test]
fn configuring_anew_keeps_the_window_surface() {
    let mut surface = surface(SrgbFrameBufferKind::Core);
    fill(&mut surface, "window", config(640, 480, true), 5);
    let (next, commands) = surface.configure(&config(0, 0, false));
    assert_eq!(
        commands,
        vec![
            Command::DeleteRenderbuffer(Renderbuffer(5)),
            Command::DeleteFramebuffer(Framebuffer(6)),
        ]
    );
    assert!(surface.swapchain.is_none());
    match next {
        Configuring::Reuse(ready) => {
            assert_eq!(ready.surface, "window");
            assert_eq!(ready.config, config(0, 0, false));
        }
        other => panic!("{other:?}"),
    }
}

#[test]
fn window_surfaces_are_made_with_what_the_surface_holds() {
    let mut surface = surface(SrgbFrameBufferKind::Core);
    let pending = match surface.configure(&config(640, 480, true)).0 {
        Configuring::Create(pending) => pending,
        other => panic!("{other:?}"),
    };
    assert_eq!(surface.window_parts(), (&'d', &9, &77));
    let ready = pending.created("window");
    assert_eq!(ready.surface, "window");
    assert_eq!(ready.config, config(640, 480, true));
    let pending = ready.described(DESC);
    assert_eq!(pending.surface, "window");
    assert_eq!(pending.config, config(640, 480, true));
    assert_eq!(pending.format_desc, DESC);
}

#[test]
fn giving_up_deletes_what_was_made() {
    let mut surface = surface(SrgbFrameBufferKind::Core);
    assert_eq!(surface.unconfigure_impl(), (None, vec![]));
    fill(&mut surface, "window", config(640, 480, true), 8);
    let (window, commands) = surface.unconfigure_impl();
    assert_eq!(window, Some("window"));
    assert_eq!(
        commands,
        vec![
            Command::DeleteRenderbuffer(Renderbuffer(8)),
            Command::DeleteFramebuffer(Framebuffer(9)),
        ]
    );
    assert_eq!(surface.unconfigure_impl(), (None, vec![]));
}

#[test]
fn acquired_textures_are_as_configured() {
    let mut surface = surface(SrgbFrameBufferKind::Core);
    fill(&mut surface, "window", config(640, 480, true), 5);
    let acquired = surface.acquire_texture(Some(1u64), &"fence").unwrap();
    assert_eq!(
        acquired,
        Some(AcquiredSurfaceTexture { texture: texture(5, config(640, 480, true)), suboptimal: false })
    );
}

#[test]
fn presenting_with_srgb_turns_conversion_off_meanwhile() {
    let mut surface = surface(SrgbFrameBufferKind::Khr);
    fill(&mut surface, "window", config(640, 480, true), 5);
    assert_eq!(
        surface.present(texture(5, config(640, 480, true))),
        vec![
            Command::MakeCurrentWindow,
            Command::Disable(Capability::ScissorTest),
            Command::ColorMask { red: true, green: true, blue: true, alpha: true },
            Command::BindFramebuffer(FramebufferTarget::Draw, None),
            Command::BindFramebuffer(FramebufferTarget::Read, Some(Framebuffer(6))),
            Command::Disable(Capability::FramebufferSrgb),
            Command::BlitColorNearest(Blit {
                src_x0: 0,
                src_y0: 480,
                src_x1: 640,
                src_y1: 0,
                dst_x0: 0,
                dst_y0: 0,
                dst_x1: 640,
                dst_y1: 480,
            }),
            Command::Enable(Capability::FramebufferSrgb),
            Command::BindFramebuffer(FramebufferTarget::Read, None),
            Command::SwapBuffers,
            Command::MakeNotCurrent,
        ]
    );
}

#[test]
fn presenting_without_srgb_leaves_conversion_alone() {
    let mut surface = surface(SrgbFrameBufferKind::Unsupported);
    fill(&mut surface, "window", config(2, 3, false), 5);
    let commands = surface.present(texture(5, config(2, 3, false)));
    assert_eq!(commands.len(), 9);
    assert!(!commands.contains(&Command::Enable(Capability::FramebufferSrgb)));
    assert!(!commands.contains(&Command::Disable(Capability::FramebufferSrgb)));
    assert_eq!(commands[0], Command::MakeCurrentWindow);
    assert!(matches!(commands[5], Command::BlitColorNearest(_)));
    assert_eq!(commands[8], Command::MakeNotCurrent);
}

#[test]
fn sizes_beyond_31_bits_wrap() {
    let huge = config(u32::MAX, 0x8000_0000, false);
    let pending = PendingRenderbuffer { surface: "window", config: huge, format_desc: DESC };
    let (_, commands) = pending.renderbuffer_created(Some(Renderbuffer(1))).unwrap();
    assert_eq!(
        commands[1],
        Command::RenderbufferStorage { format: 0x8C43, width: -1, height: i32::MIN }
    );
}
