//! The surface of a window, and the swapchain that it is configured with.

use vstd::prelude::*;
use crate::context::EglContext;
use crate::error::{DeviceError, SurfaceError};
use crate::gl::{Blit, Capability, ColorMask, Command, Current, Framebuffer, FramebufferTarget, GlState, Renderbuffer, Storage};
use crate::gl::lemma_run_none;
use crate::srgb::SrgbFrameBufferKind;

verus! {

/// The window system.
#[derive(Clone, Copy, Debug, PartialEq, Eq, Structural)]
pub enum WindowKind {
    Wayland,
    X11,
    AngleX11,
    Unknown,
}

/// The window system that surfaces are made for.
#[derive(Clone, Copy, Debug, PartialEq, Eq, Structural)]
pub struct WindowSystemInterface {
    pub kind: WindowKind,
}

/// The size of a texture.
#[derive(Clone, Copy, Debug, PartialEq, Eq, Structural)]
pub struct Extent3d {
    pub width: u32,
    pub height: u32,
    pub depth_or_array_layers: u32,
}

/// The format of a texture, known by a number. Whoever names the format knows its color space and
/// says it here; nothing relates `srgb` to `id`.
#[derive(Clone, Copy, Debug, PartialEq, Eq, Structural)]
pub struct TextureFormat {
    /// The number.
    pub id: u32,
    /// Whether its colors are in the sRGB color space.
    pub srgb: bool,
}

impl TextureFormat {
    /// Whether its colors are in the sRGB color space.
    pub fn is_srgb(&self) -> (r: bool)
        ensures
            r == self.srgb,
    {
        self.srgb
    }
}

/// How OpenGL describes a format.
#[derive(Clone, Copy, Debug, PartialEq, Eq, Structural)]
pub struct TextureFormatDesc {
    pub internal: u32,
    pub external: u32,
    pub data_type: u32,
}

/// How a texture is sampled.
#[derive(Clone, Copy, Debug, PartialEq, Eq, Structural)]
pub enum TextureSampleType {
    Float { filterable: bool },
    Depth,
    Sint,
    Uint,
}

/// What a surface is to be configured for.
#[derive(Clone, Copy, Debug, PartialEq, Eq, Structural)]
pub struct SurfaceConfiguration {
    /// The size of its textures.
    pub extent: Extent3d,
    /// The format of its textures.
    pub format: TextureFormat,
}

/// What is rendered to: a window surface `S`, and the buffer whose content is copied to it.
#[derive(Debug)]
pub struct Swapchain<S> {
    /// The window surface.
    pub surface: S,
    /// The framebuffer that has the renderbuffer as its color attachment.
    pub framebuffer: Framebuffer,
    /// The renderbuffer that is rendered to.
    pub renderbuffer: Renderbuffer,
    /// The size of the renderbuffer.
    pub extent: Extent3d,
    /// The format of the renderbuffer.
    pub format: TextureFormat,
    /// How OpenGL describes the format.
    pub format_desc: TextureFormatDesc,
    /// How the renderbuffer would be sampled.
    pub sample_type: TextureSampleType,
}

/// The surface of a window `W`, for an EGL context `C` on a display `D` with a pbuffer `P`, a
/// configuration `K` and window surfaces `S`.
#[derive(Debug)]
pub struct Surface<C, D, P, K, W, S> {
    /// The context and its display.
    pub egl: EglContext<C, D, P>,
    /// The window system.
    pub wsi: WindowSystemInterface,
    /// The configuration.
    pub config: K,
    /// Whether it can be presented.
    pub presentable: bool,
    /// The window.
    pub raw_window_handle: W,
    /// What is rendered to, once the surface is configured.
    pub swapchain: Option<Swapchain<S>>,
    /// How the framebuffer supports sRGB.
    pub srgb_kind: SrgbFrameBufferKind,
}

/// What is asked of a window surface.
#[derive(Clone, Copy, Debug, PartialEq, Eq, Structural)]
pub struct SurfaceRequest {
    /// Whether it has a single buffer.
    pub single_buffer: bool,
    /// Whether it is in the sRGB color space, where that matters.
    pub srgb: Option<bool>,
    /// Its width.
    pub width: u32,
    /// Its height.
    pub height: u32,
}

/// The side on which a surface would have no size.
#[derive(Clone, Copy, Debug, PartialEq, Eq, Structural)]
pub enum ZeroExtent {
    Width,
    Height,
}

/// How the configuration of a surface goes on.
#[derive(Debug)]
pub enum Configuring<S> {
    /// The window surface that there was is used again.
    Reuse(ReadySurface<S>),
    /// A window surface has to be made, with what `Surface::window_parts` gives.
    Create(PendingSurface),
    /// No window surface can be made.
    Reject(ZeroExtent),
}

/// A window surface that has to be made.
#[derive(Clone, Copy, Debug, PartialEq, Eq, Structural)]
pub struct PendingSurface {
    /// What is asked of it.
    pub request: SurfaceRequest,
    /// What the surface is configured for.
    pub config: SurfaceConfiguration,
}

/// A window surface that waits for the description of its format.
#[derive(Debug)]
pub struct ReadySurface<S> {
    /// The window surface.
    pub surface: S,
    /// What the surface is configured for.
    pub config: SurfaceConfiguration,
}

/// A window surface that waits for a renderbuffer.
#[derive(Debug)]
pub struct PendingRenderbuffer<S> {
    /// The window surface.
    pub surface: S,
    /// What the surface is configured for.
    pub config: SurfaceConfiguration,
    /// How OpenGL describes the format.
    pub format_desc: TextureFormatDesc,
}

/// A window surface that waits for a framebuffer.
#[derive(Debug)]
pub struct PendingFramebuffer<S> {
    pub surface: S,
    pub config: SurfaceConfiguration,
    pub format_desc: TextureFormatDesc,
    pub renderbuffer: Renderbuffer,
}

/// The size of a copy.
#[derive(Clone, Copy, Debug, PartialEq, Eq, Structural)]
pub struct CopyExtent {
    pub width: u32,
    pub height: u32,
    pub depth: u32,
}

/// What a texture is made of.
#[derive(Clone, Copy, Debug, PartialEq, Eq, Structural)]
pub enum TextureInner {
    Renderbuffer { raw: Renderbuffer },
}

/// A texture that is rendered to.
#[derive(Clone, Copy, Debug, PartialEq, Eq, Structural)]
pub struct Texture {
    /// What it is made of.
    pub inner: TextureInner,
    /// The number of its layers.
    pub array_layer_count: u32,
    /// The number of its mipmap levels.
    pub mip_level_count: u32,
    /// Its format.
    pub format: TextureFormat,
    /// How OpenGL describes the format.
    pub format_desc: TextureFormatDesc,
    /// The size of a copy of it.
    pub copy_size: CopyExtent,
    /// What has to outlive it, known by a number.
    pub drop_guard: Option<u32>,
}

/// A texture of a surface.
#[derive(Clone, Copy, Debug, PartialEq, Eq, Structural)]
pub struct AcquiredSurfaceTexture {
    /// The texture.
    pub texture: Texture,
    /// Whether the surface should be configured anew.
    pub suboptimal: bool,
}

impl SurfaceRequest {
    /// What is asked for with this configuration where sRGB is supported in this way. An sRGB
    /// surface is asked for if the format is in that color space and there is support for it.
    pub open spec fn spec_for_config(
        config: SurfaceConfiguration,
        srgb_kind: SrgbFrameBufferKind,
    ) -> SurfaceRequest {
        SurfaceRequest {
            single_buffer: false,
            srgb: if config.format.srgb && srgb_kind != SrgbFrameBufferKind::Unsupported {
                Some(true)
            } else {
                None
            },
            width: config.extent.width,
            height: config.extent.height,
        }
    }

    /// What is asked for with this configuration where sRGB is supported in this way. No side
    /// can be zero.
    pub fn for_config(config: &SurfaceConfiguration, srgb_kind: SrgbFrameBufferKind) -> (r: Result<
        SurfaceRequest,
        ZeroExtent,
    >)
        ensures
            r == (if config.extent.width == 0 {
                Err(ZeroExtent::Width)
            } else if config.extent.height == 0 {
                Err(ZeroExtent::Height)
            } else {
                Ok(Self::spec_for_config(*config, srgb_kind))
            }),
    {
        let srgb: Option<bool> = if config.format.is_srgb() {
            match srgb_kind {
                SrgbFrameBufferKind::Unsupported => None,
                _ => Some(true),
            }
        } else {
            None
        };
        if config.extent.width == 0 {
            Err(ZeroExtent::Width)
        } else if config.extent.height == 0 {
            Err(ZeroExtent::Height)
        } else {
            Ok(
                SurfaceRequest {
                    single_buffer: false,
                    srgb,
                    width: config.extent.width,
                    height: config.extent.height,
                },
            )
        }
    }
}

impl<S> Swapchain<S> {
    /// The commands that delete what the swapchain renders to.
    pub open spec fn delete_commands(self) -> Seq<Command> {
        seq![
            Command::DeleteRenderbuffer(self.renderbuffer),
            Command::DeleteFramebuffer(self.framebuffer),
        ]
    }

    /// The whole renderbuffer is copied to the whole window, upside down: OpenGL counts the
    /// lines of a window from below, and rendering counts them from above.
    pub open spec fn flip(self) -> Blit {
        Blit {
            src_x0: 0,
            src_y0: self.extent.height as i32,
            src_x1: self.extent.width as i32,
            src_y1: 0,
            dst_x0: 0,
            dst_y0: 0,
            dst_x1: self.extent.width as i32,
            dst_y1: self.extent.height as i32,
        }
    }

    /// The commands that show what was rendered. sRGB conversion is off during the copy.
    pub open spec fn present_commands(self, srgb_kind: SrgbFrameBufferKind) -> Seq<Command> {
        let srgb = srgb_kind != SrgbFrameBufferKind::Unsupported;
        seq![
            Command::MakeCurrentWindow,
            Command::Disable(Capability::ScissorTest),
            Command::ColorMask { red: true, green: true, blue: true, alpha: true },
            Command::BindFramebuffer(FramebufferTarget::Draw, None),
            Command::BindFramebuffer(FramebufferTarget::Read, Some(self.framebuffer)),
        ] + (if srgb {
            seq![Command::Disable(Capability::FramebufferSrgb)]
        } else {
            seq![]
        }) + seq![Command::BlitColorNearest(self.flip())] + (if srgb {
            seq![Command::Enable(Capability::FramebufferSrgb)]
        } else {
            seq![]
        }) + seq![
            Command::BindFramebuffer(FramebufferTarget::Read, None),
            Command::SwapBuffers,
            Command::MakeNotCurrent,
        ]
    }
}

impl PendingSurface {
    /// Goes on with the window surface that was made.
    pub fn created<S>(self, surface: S) -> (r: ReadySurface<S>)
        ensures
            r == (ReadySurface { surface, config: self.config }),
    {
        ReadySurface { surface, config: self.config }
    }
}

impl<S> ReadySurface<S> {
    /// Goes on with how OpenGL describes the format.
    pub fn described(self, format_desc: TextureFormatDesc) -> (r: PendingRenderbuffer<S>)
        ensures
            r == (PendingRenderbuffer { surface: self.surface, config: self.config, format_desc }),
    {
        PendingRenderbuffer { surface: self.surface, config: self.config, format_desc }
    }
}

impl<S> PendingRenderbuffer<S> {
    /// The commands that give the new renderbuffer its memory.
    pub open spec fn storage_commands(self, renderbuffer: Renderbuffer) -> Seq<Command> {
        seq![
            Command::BindRenderbuffer(Some(renderbuffer)),
            Command::RenderbufferStorage {
                format: self.format_desc.internal,
                width: self.config.extent.width as i32,
                height: self.config.extent.height as i32,
            },
        ]
    }

    /// Goes on with the renderbuffer that was made, or gives up where none could be made.
    pub fn renderbuffer_created(self, renderbuffer: Option<Renderbuffer>) -> (r: Result<
        (PendingFramebuffer<S>, Vec<Command>),
        SurfaceError,
    >)
        ensures
            match renderbuffer {
                Some(renderbuffer) => {
                    &&& r is Ok
                    &&& r->Ok_0.0 == (PendingFramebuffer {
                        surface: self.surface,
                        config: self.config,
                        format_desc: self.format_desc,
                        renderbuffer,
                    })
                    &&& r->Ok_0.1@ == self.storage_commands(renderbuffer)
                },
                None => r == Err::<(PendingFramebuffer<S>, Vec<Command>), _>(
                    SurfaceError::Device(DeviceError::OutOfMemory),
                ),
            },
    {
        match renderbuffer {
            Some(renderbuffer) => {
                let mut commands: Vec<Command> = Vec::new();
                commands.push(Command::BindRenderbuffer(Some(renderbuffer)));
                commands.push(
                    Command::RenderbufferStorage {
                        format: self.format_desc.internal,
                        width: #[verifier::truncate]
                        (self.config.extent.width as i32),
                        height: #[verifier::truncate]
                        (self.config.extent.height as i32),
                    },
                );
                assert(commands@ =~= self.storage_commands(renderbuffer));
                Ok(
                    (
                        PendingFramebuffer {
                            surface: self.surface,
                            config: self.config,
                            format_desc: self.format_desc,
                            renderbuffer,
                        },
                        commands,
                    ),
                )
            },
            None => Err(SurfaceError::Device(DeviceError::OutOfMemory)),
        }
    }
}

impl<S> PendingFramebuffer<S> {
    /// The commands that attach the renderbuffer to the new framebuffer.
    pub open spec fn attach_commands(self, framebuffer: Framebuffer) -> Seq<Command> {
        seq![
            Command::BindFramebuffer(FramebufferTarget::Read, Some(framebuffer)),
            Command::AttachColor(FramebufferTarget::Read, Some(self.renderbuffer)),
            Command::BindRenderbuffer(None),
            Command::BindFramebuffer(FramebufferTarget::Read, None),
        ]
    }

    /// The swapchain with the new framebuffer.
    pub open spec fn swapchain(self, framebuffer: Framebuffer) -> Swapchain<S> {
        Swapchain {
            surface: self.surface,
            renderbuffer: self.renderbuffer,
            framebuffer,
            extent: self.config.extent,
            format: self.config.format,
            format_desc: self.format_desc,
            sample_type: TextureSampleType::Float { filterable: false },
        }
    }

    /// Ends with the framebuffer that was made, or gives up where none could be made. The
    /// renderbuffer is not deleted then.
    pub fn framebuffer_created(self, framebuffer: Option<Framebuffer>) -> (r: Result<
        (Swapchain<S>, Vec<Command>),
        SurfaceError,
    >)
        ensures
            match framebuffer {
                Some(framebuffer) => {
                    &&& r is Ok
                    &&& r->Ok_0.0 == self.swapchain(framebuffer)
                    &&& r->Ok_0.1@ == self.attach_commands(framebuffer)
                },
                None => r == Err::<(Swapchain<S>, Vec<Command>), _>(
                    SurfaceError::Device(DeviceError::OutOfMemory),
                ),
            },
    {
        match framebuffer {
            Some(framebuffer) => {
                let mut commands: Vec<Command> = Vec::new();
                commands.push(Command::BindFramebuffer(FramebufferTarget::Read, Some(framebuffer)));
                commands.push(
                    Command::AttachColor(FramebufferTarget::Read, Some(self.renderbuffer)),
                );
                commands.push(Command::BindRenderbuffer(None));
                commands.push(Command::BindFramebuffer(FramebufferTarget::Read, None));
                assert(commands@ =~= self.attach_commands(framebuffer));
                Ok(
                    (
                        Swapchain {
                            surface: self.surface,
                            renderbuffer: self.renderbuffer,
                            framebuffer,
                            extent: self.config.extent,
                            format: self.config.format,
                            format_desc: self.format_desc,
                            sample_type: TextureSampleType::Float { filterable: false },
                        },
                        commands,
                    ),
                )
            },
            None => Err(SurfaceError::Device(DeviceError::OutOfMemory)),
        }
    }
}

impl<C, D, P, K, W, S> Surface<C, D, P, K, W, S> {
    /// The surface with another swapchain, or without one.
    pub open spec fn with_swapchain(self, swapchain: Option<Swapchain<S>>) -> Self {
        Surface { swapchain, ..self }
    }

    /// The commands that delete what is rendered to.
    pub open spec fn unconfigure_commands(self) -> Seq<Command> {
        match self.swapchain {
            Some(swapchain) => swapchain.delete_commands(),
            None => seq![],
        }
    }

    /// Whether sRGB surfaces are supported.
    pub fn supports_srgb(&self) -> (r: bool)
        ensures
            r == (self.srgb_kind != SrgbFrameBufferKind::Unsupported),
    {
        match self.srgb_kind {
            SrgbFrameBufferKind::Unsupported => false,
            _ => true,
        }
    }

    /// How the texture is shown. The surface has to be configured.
    pub fn present(&self, _texture: Texture) -> (r: Vec<Command>)
        requires
            self.swapchain is Some,
        ensures
            r@ == self.swapchain->0.present_commands(self.srgb_kind),
    {
        let mut commands: Vec<Command> = Vec::new();
        if let Some(sc) = &self.swapchain {
            commands.push(Command::MakeCurrentWindow);
            commands.push(Command::Disable(Capability::ScissorTest));
            commands.push(Command::ColorMask { red: true, green: true, blue: true, alpha: true });
            commands.push(Command::BindFramebuffer(FramebufferTarget::Draw, None));
            commands.push(Command::BindFramebuffer(FramebufferTarget::Read, Some(sc.framebuffer)));
            if self.supports_srgb() {
                // How drivers convert during a copy differs between them and between formats.
                commands.push(Command::Disable(Capability::FramebufferSrgb));
            }
            let width: i32 = #[verifier::truncate]
            (sc.extent.width as i32);
            let height: i32 = #[verifier::truncate]
            (sc.extent.height as i32);
            commands.push(
                Command::BlitColorNearest(
                    Blit {
                        src_x0: 0,
                        src_y0: height,
                        src_x1: width,
                        src_y1: 0,
                        dst_x0: 0,
                        dst_y0: 0,
                        dst_x1: width,
                        dst_y1: height,
                    },
                ),
            );
            if self.supports_srgb() {
                commands.push(Command::Enable(Capability::FramebufferSrgb));
            }
            commands.push(Command::BindFramebuffer(FramebufferTarget::Read, None));
            commands.push(Command::SwapBuffers);
            commands.push(self.egl.unmake_current());
        }
        assert(commands@ =~= self.swapchain->0.present_commands(self.srgb_kind));
        commands
    }

    /// Gives up the swapchain. What was rendered to is deleted, and the window surface is handed
    /// out, to be used again or dropped.
    pub fn unconfigure_impl(&mut self) -> (r: (Option<S>, Vec<Command>))
        ensures
            r.0 == (match old(self).swapchain {
                Some(swapchain) => Some(swapchain.surface),
                None => None,
            }),
            r.1@ == old(self).unconfigure_commands(),
            *final(self) == old(self).with_swapchain(None),
    {
        let mut commands: Vec<Command> = Vec::new();
        let surface = match self.swapchain.take() {
            Some(sc) => {
                commands.push(Command::DeleteRenderbuffer(sc.renderbuffer));
                commands.push(Command::DeleteFramebuffer(sc.framebuffer));
                Some(sc.surface)
            },
            None => None,
        };
        assert(commands@ =~= old(self).unconfigure_commands());
        (surface, commands)
    }

    /// Begins to configure the surface. It is not configured until a swapchain is installed.
    pub fn configure(&mut self, config: &SurfaceConfiguration) -> (r: (Configuring<S>, Vec<Command>))
        ensures
            *final(self) == old(self).with_swapchain(None),
            r.0 == (match old(self).swapchain {
                Some(swapchain) => Configuring::Reuse(
                    ReadySurface { surface: swapchain.surface, config: *config },
                ),
                None => if config.extent.width == 0 {
                    Configuring::Reject(ZeroExtent::Width)
                } else if config.extent.height == 0 {
                    Configuring::Reject(ZeroExtent::Height)
                } else {
                    Configuring::Create(
                        PendingSurface {
                            request: SurfaceRequest::spec_for_config(*config, old(self).srgb_kind),
                            config: *config,
                        },
                    )
                },
            }),
            r.1@ == old(self).unconfigure_commands(),
    {
        let (surface, commands) = self.unconfigure_impl();
        let next = match surface {
            Some(surface) => Configuring::Reuse(ReadySurface { surface, config: *config }),
            None => match SurfaceRequest::for_config(config, self.srgb_kind) {
                Ok(request) => Configuring::Create(PendingSurface { request, config: *config }),
                Err(side) => Configuring::Reject(side),
            },
        };
        (next, commands)
    }

    /// What a window surface is made with: the display of the surface, its configuration and its
    /// window.
    pub fn window_parts(&self) -> (r: (&D, &K, &W))
        ensures
            *r.0 == self.egl.display,
            *r.1 == self.config,
            *r.2 == self.raw_window_handle,
    {
        (&self.egl.display, &self.config, &self.raw_window_handle)
    }

    /// Ends the configuration of the surface.
    pub fn install(&mut self, swapchain: Swapchain<S>)
        ensures
            *final(self) == old(self).with_swapchain(Some(swapchain)),
    {
        self.swapchain = Some(swapchain);
    }

    /// The texture to render to. The surface has to be configured; neither the time one is ready
    /// to wait nor the fence matters.
    pub fn acquire_texture<T, F>(&self, _timeout: Option<T>, _fence: &F) -> (r: Result<
        Option<AcquiredSurfaceTexture>,
        SurfaceError,
    >)
        requires
            self.swapchain is Some,
        ensures
            r == Ok::<_, SurfaceError>(
                Some(
                    AcquiredSurfaceTexture {
                        texture: self.swapchain->0.texture(),
                        suboptimal: false,
                    },
                ),
            ),
    {
        match &self.swapchain {
            Some(sc) => Ok(
                Some(
                    AcquiredSurfaceTexture {
                        texture: Texture {
                            inner: TextureInner::Renderbuffer { raw: sc.renderbuffer },
                            array_layer_count: 1,
                            mip_level_count: 1,
                            format: sc.format,
                            format_desc: sc.format_desc,
                            copy_size: CopyExtent {
                                width: sc.extent.width,
                                height: sc.extent.height,
                                depth: 1,
                            },
                            drop_guard: None,
                        },
                        suboptimal: false,
                    },
                ),
            ),
            None => Ok(None),
        }
    }
}

impl<S> Swapchain<S> {
    /// The renderbuffer as a texture with one layer and one mipmap level.
    pub open spec fn texture(self) -> Texture {
        Texture {
            inner: TextureInner::Renderbuffer { raw: self.renderbuffer },
            array_layer_count: 1,
            mip_level_count: 1,
            format: self.format,
            format_desc: self.format_desc,
            copy_size: CopyExtent { width: self.extent.width, height: self.extent.height, depth: 1 },
            drop_guard: None,
        }
    }
}

/// Every component of a color.
pub open spec fn all_components() -> ColorMask {
    ColorMask { red: true, green: true, blue: true, alpha: true }
}

/// The states through which presenting goes where sRGB is supported.
proof fn lemma_present_converting<S>(swapchain: Swapchain<S>, srgb_kind: SrgbFrameBufferKind, state: GlState)
    requires
        srgb_kind != SrgbFrameBufferKind::Unsupported,
    ensures
        swapchain.present_commands(srgb_kind).len() == 11,
        forall|k: nat|
            1 <= k <= 10 ==> (#[trigger] state.after(
                swapchain.present_commands(srgb_kind),
                k,
            )).current == Current::Window,
        state.after(swapchain.present_commands(srgb_kind), 6) == (GlState {
            current: Current::Window,
            enabled: state.enabled.remove(Capability::ScissorTest).remove(
                Capability::FramebufferSrgb,
            ),
            color_mask: all_components(),
            draw: None,
            read: Some(swapchain.framebuffer),
            ..state
        }),
        state.run(swapchain.present_commands(srgb_kind)) == (GlState {
            current: Current::Nothing,
            enabled: state.enabled.remove(Capability::ScissorTest).remove(
                Capability::FramebufferSrgb,
            ).insert(Capability::FramebufferSrgb),
            color_mask: all_components(),
            draw: None,
            read: None,
            ..state
        }),
{
    let c = swapchain.present_commands(srgb_kind);
    let shown = GlState {
        current: Current::Window,
        enabled: state.enabled.remove(Capability::ScissorTest),
        color_mask: all_components(),
        draw: None,
        read: Some(swapchain.framebuffer),
        ..state
    };
    let off = GlState { enabled: shown.enabled.remove(Capability::FramebufferSrgb), ..shown };
    let on = GlState { enabled: off.enabled.insert(Capability::FramebufferSrgb), ..off };
    assert(state.after(c, 0) == state);
    assert(state.after(c, 1) == (GlState { current: Current::Window, ..state }));
    assert(state.after(c, 2) == (GlState {
        current: Current::Window,
        enabled: state.enabled.remove(Capability::ScissorTest),
        ..state
    }));
    assert(state.after(c, 3) == (GlState { color_mask: all_components(), ..state.after(c, 2) }));
    assert(state.after(c, 4) == (GlState { read: state.read, ..shown }));
    assert(state.after(c, 5) == shown);
    assert(state.after(c, 6) == off);
    assert(state.after(c, 7) == off);
    assert(state.after(c, 8) == on);
    assert(state.after(c, 9) == (GlState { read: None, ..on }));
    assert(state.after(c, 10) == state.after(c, 9));
    assert(state.after(c, 11) == (GlState { current: Current::Nothing, read: None, ..on }));
}

/// The states through which presenting goes where sRGB is not supported.
proof fn lemma_present_plain<S>(swapchain: Swapchain<S>, state: GlState)
    ensures
        swapchain.present_commands(SrgbFrameBufferKind::Unsupported).len() == 9,
        forall|k: nat|
            1 <= k <= 8 ==> (#[trigger] state.after(
                swapchain.present_commands(SrgbFrameBufferKind::Unsupported),
                k,
            )).current == Current::Window,
        state.after(swapchain.present_commands(SrgbFrameBufferKind::Unsupported), 5) == (GlState {
            current: Current::Window,
            enabled: state.enabled.remove(Capability::ScissorTest),
            color_mask: all_components(),
            draw: None,
            read: Some(swapchain.framebuffer),
            ..state
        }),
        state.run(swapchain.present_commands(SrgbFrameBufferKind::Unsupported)) == (GlState {
            current: Current::Nothing,
            enabled: state.enabled.remove(Capability::ScissorTest),
            color_mask: all_components(),
            draw: None,
            read: None,
            ..state
        }),
{
    let c = swapchain.present_commands(SrgbFrameBufferKind::Unsupported);
    let shown = GlState {
        current: Current::Window,
        enabled: state.enabled.remove(Capability::ScissorTest),
        color_mask: all_components(),
        draw: None,
        read: Some(swapchain.framebuffer),
        ..state
    };
    assert(state.after(c, 0) == state);
    assert(state.after(c, 1) == (GlState { current: Current::Window, ..state }));
    assert(state.after(c, 2) == (GlState {
        current: Current::Window,
        enabled: state.enabled.remove(Capability::ScissorTest),
        ..state
    }));
    assert(state.after(c, 3) == (GlState { color_mask: all_components(), ..state.after(c, 2) }));
    assert(state.after(c, 4) == (GlState { read: state.read, ..shown }));
    assert(state.after(c, 5) == shown);
    assert(state.after(c, 6) == shown);
    assert(state.after(c, 7) == (GlState { read: None, ..shown }));
    assert(state.after(c, 8) == state.after(c, 7));
    assert(state.after(c, 9) == (GlState { current: Current::Nothing, read: None, ..shown }));
}

/// Presenting needs nothing but the context: it makes the context current before anything else and
/// not current at the end. It leaves both framebuffer bindings at the window, the scissor test off
/// and every component of a color written. sRGB conversion is afterwards as an adapter with this
/// support has it: on where there is support, and else as it was.
pub proof fn law_present_leaves_context_free<S>(
    swapchain: Swapchain<S>,
    srgb_kind: SrgbFrameBufferKind,
    state: GlState,
)
    ensures
        state.is_current_for(swapchain.present_commands(srgb_kind)),
        state.run(swapchain.present_commands(srgb_kind)) == (GlState {
            current: Current::Nothing,
            enabled: if srgb_kind != SrgbFrameBufferKind::Unsupported {
                state.enabled.remove(Capability::ScissorTest).insert(Capability::FramebufferSrgb)
            } else {
                state.enabled.remove(Capability::ScissorTest)
            },
            color_mask: all_components(),
            draw: None,
            read: None,
            ..state
        }),
{
    reveal(GlState::is_current_for);
    let commands = swapchain.present_commands(srgb_kind);
    let end = state.run(commands);
    if srgb_kind != SrgbFrameBufferKind::Unsupported {
        lemma_present_converting(swapchain, srgb_kind, state);
        assert(end.enabled =~= state.enabled.remove(Capability::ScissorTest).insert(
            Capability::FramebufferSrgb,
        ));
    } else {
        lemma_present_plain(swapchain, state);
    }
    assert(!commands[0].needs_context());
    assert(!commands[commands.len() - 1].needs_context());
}

/// The place of the copy among the commands that present.
pub open spec fn copy_position(srgb_kind: SrgbFrameBufferKind) -> int {
    if srgb_kind != SrgbFrameBufferKind::Unsupported {
        6
    } else {
        5
    }
}

/// Exactly one copy is made when presenting: from the framebuffer of the swapchain to the window,
/// with the window current and without sRGB conversion. Where sRGB is not supported, conversion
/// is off to begin with.
pub proof fn law_present_copies_once_unconverted<S>(
    swapchain: Swapchain<S>,
    srgb_kind: SrgbFrameBufferKind,
    state: GlState,
)
    requires
        srgb_kind == SrgbFrameBufferKind::Unsupported ==> !state.enabled.contains(
            Capability::FramebufferSrgb,
        ),
    ensures
        ({
            let commands = swapchain.present_commands(srgb_kind);
            let before = state.after(commands, copy_position(srgb_kind) as nat);
            &&& 0 <= copy_position(srgb_kind) < commands.len()
            &&& commands[copy_position(srgb_kind)] == Command::BlitColorNearest(swapchain.flip())
            &&& before.current == Current::Window
            &&& before.draw is None
            &&& before.read == Some(swapchain.framebuffer)
            &&& !before.enabled.contains(Capability::FramebufferSrgb)
        }),
        forall|k: int|
            0 <= k < swapchain.present_commands(srgb_kind).len() && (
            #[trigger] swapchain.present_commands(srgb_kind)[k]) is BlitColorNearest ==> k
                == copy_position(srgb_kind),
{
    if srgb_kind != SrgbFrameBufferKind::Unsupported {
        lemma_present_converting(swapchain, srgb_kind, state);
    } else {
        lemma_present_plain(swapchain, state);
    }
}

/// A surface that was configured renders to memory of the format and the size that were asked
/// for, through a framebuffer of its own, and no binding is left behind.
pub proof fn law_configured_swapchain_has_its_memory<S>(
    pending: PendingRenderbuffer<S>,
    renderbuffer: Renderbuffer,
    framebuffer: Framebuffer,
    state: GlState,
)
    ensures
        ({
            let attaching = PendingFramebuffer {
                surface: pending.surface,
                config: pending.config,
                format_desc: pending.format_desc,
                renderbuffer,
            };
            let end = state.with_renderbuffer(renderbuffer).run(
                pending.storage_commands(renderbuffer),
            ).with_framebuffer(framebuffer).run(attaching.attach_commands(framebuffer));
            end == (GlState {
                read: None,
                bound: None,
                framebuffers: state.framebuffers.insert(framebuffer),
                renderbuffers: state.renderbuffers.insert(renderbuffer),
                storage: state.storage.insert(
                    renderbuffer,
                    Storage {
                        format: pending.format_desc.internal,
                        width: pending.config.extent.width as i32,
                        height: pending.config.extent.height as i32,
                    },
                ),
                color: state.color.insert(framebuffer, renderbuffer),
                ..state
            })
        }),
{
    reveal_with_fuel(GlState::after, 5);
}

/// Giving up a swapchain undoes its configuration: of the objects that were made for it, and of
/// what belongs to them, nothing is left.
pub proof fn law_unconfigure_undoes_configure<S>(
    pending: PendingRenderbuffer<S>,
    renderbuffer: Renderbuffer,
    framebuffer: Framebuffer,
    state: GlState,
)
    requires
        !state.renderbuffers.contains(renderbuffer),
        !state.storage.dom().contains(renderbuffer),
        !state.framebuffers.contains(framebuffer),
        !state.color.dom().contains(framebuffer),
        state.draw != Some(framebuffer),
        forall|other: Framebuffer| #[trigger]
            state.color.dom().contains(other) ==> state.color[other] != renderbuffer,
    ensures
        ({
            let attaching = PendingFramebuffer {
                surface: pending.surface,
                config: pending.config,
                format_desc: pending.format_desc,
                renderbuffer,
            };
            let configured = state.with_renderbuffer(renderbuffer).run(
                pending.storage_commands(renderbuffer),
            ).with_framebuffer(framebuffer).run(attaching.attach_commands(framebuffer));
            configured.run(attaching.swapchain(framebuffer).delete_commands()) == (GlState {
                read: None,
                bound: None,
                ..state
            })
        }),
{
    let attaching = PendingFramebuffer {
        surface: pending.surface,
        config: pending.config,
        format_desc: pending.format_desc,
        renderbuffer,
    };
    let configured = state.with_renderbuffer(renderbuffer).run(
        pending.storage_commands(renderbuffer),
    ).with_framebuffer(framebuffer).run(attaching.attach_commands(framebuffer));
    law_configured_swapchain_has_its_memory(pending, renderbuffer, framebuffer, state);
    let delete = attaching.swapchain(framebuffer).delete_commands();
    let one = configured.apply(Command::DeleteRenderbuffer(renderbuffer));
    let two = one.apply(Command::DeleteFramebuffer(framebuffer));
    assert(configured.after(delete, 0) == configured);
    assert(configured.after(delete, 1) == one);
    assert(configured.run(delete) == two);
    assert(two.renderbuffers =~= state.renderbuffers);
    assert(two.framebuffers =~= state.framebuffers);
    assert(two.storage =~= state.storage);
    assert(configured.bound_with(renderbuffer) =~= Set::empty());
    assert(two.color =~= state.color);
}

/// Configuring a surface anew replaces what it renders to: of the old objects, and of what belongs
/// to them, nothing is left, except where a new object got an old name.
pub proof fn law_reconfigure_replaces_objects<S>(
    previous: Swapchain<S>,
    pending: PendingRenderbuffer<S>,
    renderbuffer: Renderbuffer,
    framebuffer: Framebuffer,
    state: GlState,
)
    ensures
        ({
            let attaching = PendingFramebuffer {
                surface: pending.surface,
                config: pending.config,
                format_desc: pending.format_desc,
                renderbuffer,
            };
            let end = state.run(previous.delete_commands()).with_renderbuffer(renderbuffer).run(
                pending.storage_commands(renderbuffer),
            ).with_framebuffer(framebuffer).run(attaching.attach_commands(framebuffer));
            &&& end.renderbuffers == state.renderbuffers.remove(previous.renderbuffer).insert(
                renderbuffer,
            )
            &&& end.framebuffers == state.framebuffers.remove(previous.framebuffer).insert(
                framebuffer,
            )
            &&& end.color[framebuffer] == renderbuffer
            &&& previous.renderbuffer != renderbuffer ==> !end.renderbuffers.contains(
                previous.renderbuffer,
            ) && !end.storage.dom().contains(previous.renderbuffer)
            &&& previous.framebuffer != framebuffer ==> !end.framebuffers.contains(
                previous.framebuffer,
            ) && !end.color.dom().contains(previous.framebuffer)
            &&& end.bound is None
            &&& end.read is None
            &&& end.current == state.current
        }),
{
    let deleted = state.run(previous.delete_commands());
    assert(deleted.renderbuffers == state.renderbuffers.remove(previous.renderbuffer)
        && deleted.framebuffers == state.framebuffers.remove(previous.framebuffer)
        && deleted.storage == state.storage.remove(previous.renderbuffer)
        && !deleted.color.dom().contains(previous.framebuffer)
        && deleted.current == state.current) by {
        reveal_with_fuel(GlState::after, 3);
    }
    law_configured_swapchain_has_its_memory(pending, renderbuffer, framebuffer, deleted);
}

/// Where no framebuffer could be made, the renderbuffer stays, with its memory, and stays bound.
pub proof fn law_failed_framebuffer_leaves_renderbuffer<S>(
    pending: PendingRenderbuffer<S>,
    renderbuffer: Renderbuffer,
    state: GlState,
)
    ensures
        ({
            let end = state.with_renderbuffer(renderbuffer).run(
                pending.storage_commands(renderbuffer),
            );
            &&& end.renderbuffers.contains(renderbuffer)
            &&& end.storage.dom().contains(renderbuffer)
            &&& end.bound == Some(renderbuffer)
        }),
{
    reveal_with_fuel(GlState::after, 3);
}

/// A texture that is acquired after a surface was configured is the renderbuffer that was made
/// for it, with the format and the size that were asked for.
pub proof fn law_acquired_texture_is_as_configured<S>(
    pending: PendingFramebuffer<S>,
    framebuffer: Framebuffer,
)
    ensures
        ({
            let texture = pending.swapchain(framebuffer).texture();
            &&& texture.inner == (TextureInner::Renderbuffer { raw: pending.renderbuffer })
            &&& texture.format == pending.config.format
            &&& texture.copy_size.width == pending.config.extent.width
            &&& texture.copy_size.height == pending.config.extent.height
            &&& texture.copy_size.depth == 1
        }),
{
}

/// Where a window surface is asked for, it has the width and the height of the extent, whatever the
/// format and the support for sRGB are, and more than one buffer. It is asked to be in the sRGB
/// color space exactly where the format is and there is support, and is never asked not to be.
pub proof fn law_request_has_the_extent(config: SurfaceConfiguration, srgb_kind: SrgbFrameBufferKind)
    ensures
        ({
            let request = SurfaceRequest::spec_for_config(config, srgb_kind);
            &&& request.width == config.extent.width
            &&& request.height == config.extent.height
            &&& !request.single_buffer
            &&& request.srgb == Some(true) <==> config.format.srgb && (srgb_kind
                == SrgbFrameBufferKind::Core || srgb_kind == SrgbFrameBufferKind::Khr)
            &&& request.srgb != Some(false)
        }),
{
}

/// Two configurations that differ in nothing but whether their format is in the sRGB color space
/// ask for window surfaces that differ in nothing but their color space, and without support for
/// sRGB in nothing at all.
pub proof fn law_color_space_changes_no_size(
    config: SurfaceConfiguration,
    other: SurfaceConfiguration,
    srgb_kind: SrgbFrameBufferKind,
    other_kind: SrgbFrameBufferKind,
)
    requires
        config.extent == other.extent,
    ensures
        ({
            let request = SurfaceRequest::spec_for_config(config, srgb_kind);
            let second = SurfaceRequest::spec_for_config(other, other_kind);
            &&& request == (SurfaceRequest { srgb: request.srgb, ..second })
            &&& srgb_kind == SrgbFrameBufferKind::Unsupported && other_kind
                == SrgbFrameBufferKind::Unsupported ==> request == second
        }),
{
}

/// The one copy that is made when presenting reads the rectangle from (0, height) to (width, 0) and
/// draws the one from (0, 0) to (width, height), of the extent of the swapchain, whatever its
/// format and the support for sRGB are.
pub proof fn law_copy_is_upside_down<S>(
    swapchain: Swapchain<S>,
    srgb_kind: SrgbFrameBufferKind,
    k: int,
)
    requires
        0 <= k < swapchain.present_commands(srgb_kind).len(),
        swapchain.present_commands(srgb_kind)[k] is BlitColorNearest,
    ensures
        swapchain.present_commands(srgb_kind)[k] == Command::BlitColorNearest(
            Blit {
                src_x0: 0,
                src_y0: swapchain.extent.height as i32,
                src_x1: swapchain.extent.width as i32,
                src_y1: 0,
                dst_x0: 0,
                dst_y0: 0,
                dst_x1: swapchain.extent.width as i32,
                dst_y1: swapchain.extent.height as i32,
            },
        ),
{
}

/// Line `y` of the renderbuffer is shown in line `height - 1 - y` of the window and in no other,
/// and each column in its own. The extent has to fit into the coordinates.
pub proof fn law_lines_are_mirrored<S>(
    swapchain: Swapchain<S>,
    srgb_kind: SrgbFrameBufferKind,
    k: int,
    from: int,
    to: int,
)
    requires
        0 <= k < swapchain.present_commands(srgb_kind).len(),
        swapchain.present_commands(srgb_kind)[k] is BlitColorNearest,
        0 < swapchain.extent.width <= i32::MAX,
        0 < swapchain.extent.height <= i32::MAX,
    ensures
        ({
            let blit = swapchain.present_commands(srgb_kind)[k]->BlitColorNearest_0;
            &&& blit.copies_line(from, to) <==> to == swapchain.extent.height - 1 - from
            &&& blit.copies_column(from, to) <==> to == from
        }),
{
    law_copy_is_upside_down(swapchain, srgb_kind, k);
    let height = swapchain.extent.height as int;
    let width = swapchain.extent.width as int;
    assert((2 * from + 1 - 2 * height) * height == (2 * to + 1) * (0 - height) <==> to == height - 1
        - from) by (nonlinear_arith)
        requires
            height > 0,
    ;
    assert((2 * from + 1) * width == (2 * to + 1) * width <==> to == from) by (nonlinear_arith)
        requires
            width > 0,
    ;
}

/// What is done when presenting, in order: the window is made current, nothing is cut off or
/// masked, the framebuffer is copied to the window without conversion, the buffers are swapped once
/// after the copy, and the context is not current at the end. Conversion is turned off before the
/// copy and on after it exactly where sRGB is supported.
pub proof fn law_present_in_order<S>(swapchain: Swapchain<S>, srgb_kind: SrgbFrameBufferKind)
    ensures
        ({
            let commands = swapchain.present_commands(srgb_kind);
            let last = commands.len() - 1;
            let converts = srgb_kind == SrgbFrameBufferKind::Core || srgb_kind
                == SrgbFrameBufferKind::Khr;
            &&& commands.len() == (if converts {
                11int
            } else {
                9int
            })
            &&& commands[0] == Command::MakeCurrentWindow
            &&& commands[1] == Command::Disable(Capability::ScissorTest)
            &&& commands[2] == (Command::ColorMask {
                red: true,
                green: true,
                blue: true,
                alpha: true,
            })
            &&& commands[3] == Command::BindFramebuffer(FramebufferTarget::Draw, None)
            &&& commands[4] == Command::BindFramebuffer(
                FramebufferTarget::Read,
                Some(swapchain.framebuffer),
            )
            &&& !converts ==> commands[5] is BlitColorNearest
            &&& converts ==> commands[5] == Command::Disable(Capability::FramebufferSrgb)
                && commands[6] is BlitColorNearest && commands[7] == Command::Enable(
                Capability::FramebufferSrgb,
            )
            &&& commands[last - 2] == Command::BindFramebuffer(FramebufferTarget::Read, None)
            &&& commands[last - 1] == Command::SwapBuffers
            &&& commands[last] == Command::MakeNotCurrent
        }),
{
}

/// Presenting does the same for two swapchains that render through the same framebuffer with the
/// same extent, whatever their formats, window surfaces and renderbuffers are.
pub proof fn law_present_depends_on_framebuffer_and_extent<S>(
    swapchain: Swapchain<S>,
    other: Swapchain<S>,
    srgb_kind: SrgbFrameBufferKind,
)
    requires
        swapchain.framebuffer == other.framebuffer,
        swapchain.extent.width == other.extent.width,
        swapchain.extent.height == other.extent.height,
    ensures
        swapchain.present_commands(srgb_kind) == other.present_commands(srgb_kind),
        swapchain.present_commands(SrgbFrameBufferKind::Core) == swapchain.present_commands(
            SrgbFrameBufferKind::Khr,
        ),
{
    assert(swapchain.present_commands(srgb_kind) =~= other.present_commands(srgb_kind));
}

/// After a surface gave up its swapchain neither the renderbuffer nor the framebuffer of the
/// swapchain is left, nor what belongs to them, nor a binding of them, whatever its format is. All
/// other objects stay as they were. A surface without a swapchain changes nothing.
pub proof fn law_unconfigure_leaves_nothing<C, D, P, K, W, S>(
    surface: Surface<C, D, P, K, W, S>,
    state: GlState,
)
    ensures
        ({
            let end = state.run(surface.unconfigure_commands());
            &&& surface.swapchain is None ==> surface.unconfigure_commands().len() == 0 && end
                == state
            &&& surface.swapchain matches Some(swapchain) ==> {
                &&& !end.renderbuffers.contains(swapchain.renderbuffer)
                &&& !end.storage.dom().contains(swapchain.renderbuffer)
                &&& end.bound != Some(swapchain.renderbuffer)
                &&& !end.framebuffers.contains(swapchain.framebuffer)
                &&& !end.color.dom().contains(swapchain.framebuffer)
                &&& end.draw != Some(swapchain.framebuffer)
                &&& end.read != Some(swapchain.framebuffer)
                &&& end.renderbuffers == state.renderbuffers.remove(swapchain.renderbuffer)
                &&& end.framebuffers == state.framebuffers.remove(swapchain.framebuffer)
                &&& end.storage == state.storage.remove(swapchain.renderbuffer)
                &&& end.current == state.current
                &&& end.enabled == state.enabled
                &&& end.color_mask == state.color_mask
                &&& end.loaded == state.loaded
                &&& end.reports_debug == state.reports_debug
            }
        }),
{
    lemma_run_none(state);
    if let Some(swapchain) = surface.swapchain {
        let c = surface.unconfigure_commands();
        assert(state.after(c, 0) == state);
        assert(state.after(c, 1) == state.apply(Command::DeleteRenderbuffer(swapchain.renderbuffer)));
        assert(state.after(c, 2) == state.apply(
            Command::DeleteRenderbuffer(swapchain.renderbuffer),
        ).apply(Command::DeleteFramebuffer(swapchain.framebuffer)));
    }
}

/// A surface that gives up its swapchain deletes the renderbuffer and then the framebuffer of the
/// swapchain, and does nothing else.
pub proof fn law_unconfigure_deletes_both<C, D, P, K, W, S>(surface: Surface<C, D, P, K, W, S>)
    ensures
        surface.swapchain matches Some(swapchain) ==> {
            &&& surface.unconfigure_commands().len() == 2
            &&& surface.unconfigure_commands()[0] == Command::DeleteRenderbuffer(
                swapchain.renderbuffer,
            )
            &&& surface.unconfigure_commands()[1] == Command::DeleteFramebuffer(
                swapchain.framebuffer,
            )
            &&& swapchain.delete_commands() == surface.unconfigure_commands()
        },
        surface.swapchain is None ==> surface.unconfigure_commands().len() == 0,
{
}

/// Of a surface nothing but the swapchain changes when it is configured or gives up its swapchain.
pub proof fn law_other_swapchain_changes_nothing_else<C, D, P, K, W, S>(
    surface: Surface<C, D, P, K, W, S>,
    swapchain: Option<Swapchain<S>>,
)
    ensures
        surface.with_swapchain(swapchain).swapchain == swapchain,
        surface.with_swapchain(swapchain).egl == surface.egl,
        surface.with_swapchain(swapchain).wsi == surface.wsi,
        surface.with_swapchain(swapchain).config == surface.config,
        surface.with_swapchain(swapchain).presentable == surface.presentable,
        surface.with_swapchain(swapchain).raw_window_handle == surface.raw_window_handle,
        surface.with_swapchain(swapchain).srgb_kind == surface.srgb_kind,
{
}

/// The memory of a new renderbuffer has the extent and the internal format that were asked for, and
/// the renderbuffer is attached to the new framebuffer through the read binding. Nothing else is
/// done.
pub proof fn law_configure_in_order<S>(
    pending: PendingRenderbuffer<S>,
    attaching: PendingFramebuffer<S>,
    renderbuffer: Renderbuffer,
    framebuffer: Framebuffer,
)
    ensures
        pending.storage_commands(renderbuffer) == seq![
            Command::BindRenderbuffer(Some(renderbuffer)),
            Command::RenderbufferStorage {
                format: pending.format_desc.internal,
                width: pending.config.extent.width as i32,
                height: pending.config.extent.height as i32,
            },
        ],
        attaching.attach_commands(framebuffer) == seq![
            Command::BindFramebuffer(FramebufferTarget::Read, Some(framebuffer)),
            Command::AttachColor(FramebufferTarget::Read, Some(attaching.renderbuffer)),
            Command::BindRenderbuffer(None),
            Command::BindFramebuffer(FramebufferTarget::Read, None),
        ],
{
}

/// A swapchain has the window surface, the renderbuffer and the framebuffer that were made for it,
/// and the extent and the format that were asked for.
pub proof fn law_swapchain_has_its_parts<S>(pending: PendingFramebuffer<S>, framebuffer: Framebuffer)
    ensures
        ({
            let swapchain = pending.swapchain(framebuffer);
            &&& swapchain.surface == pending.surface
            &&& swapchain.renderbuffer == pending.renderbuffer
            &&& swapchain.framebuffer == framebuffer
            &&& swapchain.extent == pending.config.extent
            &&& swapchain.format == pending.config.format
            &&& swapchain.format_desc == pending.format_desc
            &&& swapchain.sample_type == (TextureSampleType::Float { filterable: false })
        }),
{
}

/// The texture of a swapchain is its renderbuffer, with its format and the width and the height of
/// its extent, in one layer, one level and one slice, whatever the extent says of layers.
pub proof fn law_texture_is_the_renderbuffer<S>(swapchain: Swapchain<S>)
    ensures
        ({
            let texture = swapchain.texture();
            &&& texture.inner == (TextureInner::Renderbuffer { raw: swapchain.renderbuffer })
            &&& texture.array_layer_count == 1
            &&& texture.mip_level_count == 1
            &&& texture.format == swapchain.format
            &&& texture.format_desc == swapchain.format_desc
            &&& texture.copy_size.width == swapchain.extent.width
            &&& texture.copy_size.height == swapchain.extent.height
            &&& texture.copy_size.depth == 1
            &&& texture.drop_guard is None
        }),
{
}

} // verus!
