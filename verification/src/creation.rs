//! How an instance comes to its configuration and its context.

use vstd::prelude::*;
use glutin::context::ContextAttributes;
use crate::attributes::{context_attributes, ContextAttempt};
use crate::attributes::glutin_context_attributes;
use crate::config::{choose_config, ConfigInfo, ConfigRequest};
use crate::config::chosen;
use crate::context::EglContext;
use crate::display::needs_pbuffer;
use crate::display::{has_extension, is_at_least, spec_needs_pbuffer, surfaceless_extension};
use crate::error::InstanceError;
use crate::gl::Command;
use crate::srgb::{choose_srgb_kind, SrgbFrameBufferKind};
use crate::srgb::srgb_kind_of;
use crate::version::parse_egl_version;
use crate::version::{egl_version_of, law_version_round_trip, version_text};

verus! {

/// The minor version of OpenGL ES 3 that is asked for.
#[derive(Clone, Copy, Debug, PartialEq, Eq, Structural)]
pub enum Gles3MinorVersion {
    /// Whichever there is.
    Automatic,
    /// OpenGL ES 3.0.
    Version0,
    /// OpenGL ES 3.1.
    Version1,
    /// OpenGL ES 3.2.
    Version2,
}

/// The width and the height of a pbuffer that nothing is rendered to.
pub const DUMMY_PBUFFER_SIZE: u32 = 1;

/// What an instance works with: an EGL context `C` on a display `D`, made for a configuration
/// `K`.
#[derive(Debug)]
pub struct Inner<C, D, P, K> {
    /// The context and its display. It has a dummy pbuffer (1x1) where it could not be made
    /// current otherwise: before EGL 1.5, without `EGL_KHR_surfaceless_context`.
    pub egl: EglContext<C, D, P>,
    /// The version of OpenGL ES.
    pub version: (i32, i32),
    /// Whether windows can be rendered to.
    pub supports_native_window: bool,
    /// The configuration.
    pub config: K,
    /// The address of the Wayland display, where one was handed over.
    pub wl_display: Option<usize>,
    /// The minor version of OpenGL ES 3 that was asked for.
    pub force_gles_minor_version: Gles3MinorVersion,
    /// How the framebuffer supports sRGB.
    pub srgb_kind: SrgbFrameBufferKind,
}

/// The first step: configurations are looked for.
#[derive(Clone, Copy, Debug, PartialEq, Eq)]
pub struct ConfigSearch {
    /// The version of EGL.
    pub version: (i32, i32),
    /// How the framebuffer supports sRGB.
    pub srgb_kind: SrgbFrameBufferKind,
    /// Whether the context needs a pbuffer to be current where there is no window.
    pub needs_pbuffer: bool,
    /// The minor version of OpenGL ES 3 that is asked for.
    pub force_gles_minor_version: Gles3MinorVersion,
}

/// The second step: contexts are tried for the configuration that was chosen.
#[derive(Clone, Copy, Debug, PartialEq, Eq)]
pub struct ContextSearch {
    /// What the first step knew.
    pub search: ConfigSearch,
    /// Which of the configurations was chosen.
    pub config: usize,
    /// Whether windows can be rendered to.
    pub supports_native_window: bool,
    /// The attempt that is to be made now.
    pub attempt: ContextAttempt,
}

impl ConfigSearch {
    /// The first step for a display with this version and these extensions.
    pub open spec fn spec_begin(
        display_version: Seq<char>,
        display_extensions: Seq<String>,
        force_gles_minor_version: Gles3MinorVersion,
    ) -> Option<ConfigSearch> {
        match egl_version_of(display_version) {
            Some(version) => Some(
                ConfigSearch {
                    version,
                    srgb_kind: srgb_kind_of(version, display_extensions),
                    needs_pbuffer: spec_needs_pbuffer(version, display_extensions),
                    force_gles_minor_version,
                },
            ),
            None => None,
        }
    }

    /// Begins with what the display says of itself. There is no way on, and `None`, where its
    /// version cannot be read.
    pub fn begin(
        display_version: &str,
        display_extensions: &Vec<String>,
        force_gles_minor_version: Gles3MinorVersion,
    ) -> (r: Option<ConfigSearch>)
        ensures
            r == Self::spec_begin(
                display_version@,
                display_extensions@,
                force_gles_minor_version,
            ),
    {
        match parse_egl_version(display_version) {
            Some(version) => {
                let srgb_kind = choose_srgb_kind(version, display_extensions);
                let needs_pbuffer = needs_pbuffer(version, display_extensions);
                Some(ConfigSearch { version, srgb_kind, needs_pbuffer, force_gles_minor_version })
            },
            None => None,
        }
    }

    /// What is asked of the configurations.
    pub fn request(&self) -> (r: ConfigRequest)
        ensures
            r == ConfigRequest::spec_for_srgb(self.srgb_kind),
    {
        ConfigRequest::for_srgb(self.srgb_kind)
    }

    /// Goes on with the configurations that were found. Where there are none, no instance can be
    /// made.
    pub fn found(&self, configs: &Vec<ConfigInfo>) -> (r: Result<ContextSearch, InstanceError>)
        ensures
            configs@.len() == 0 ==> r is Err && r->Err_0.message@
                == "No matching gl config found"@,
            configs@.len() > 0 ==> r is Ok && r->Ok_0.search == *self && r->Ok_0.config == chosen(
                configs@,
            ) && r->Ok_0.config < configs@.len() && r->Ok_0.supports_native_window
                && r->Ok_0.attempt == ContextAttempt::Default,
    {
        match choose_config(configs) {
            Ok((config, supports_native_window)) => Ok(
                ContextSearch {
                    search: *self,
                    config,
                    supports_native_window,
                    attempt: ContextAttempt::Default,
                },
            ),
            Err(_) => Err(InstanceError::new("No matching gl config found".to_owned())),
        }
    }
}

impl ContextSearch {
    /// The attributes of the context that is to be tried now.
    pub fn attributes(&self) -> (r: ContextAttributes)
        ensures
            r == glutin_context_attributes(self.attempt.spec_api()),
    {
        context_attributes(self.attempt.api())
    }

    /// Goes on after the attempt failed. There is no way on, and `None`, after the last one.
    pub fn failed(&self) -> (r: Option<ContextSearch>)
        ensures
            r == (match self.attempt.spec_next() {
                Some(attempt) => Some(ContextSearch { attempt, ..*self }),
                None => None,
            }),
    {
        match self.attempt.next() {
            Some(attempt) => Some(
                ContextSearch {
                    search: self.search,
                    config: self.config,
                    supports_native_window: self.supports_native_window,
                    attempt,
                },
            ),
            None => None,
        }
    }

    /// The configuration that contexts and pbuffers are made for.
    pub fn chosen_config<'k, K>(&self, configs: &'k Vec<K>) -> (r: &'k K)
        requires
            self.config < configs@.len(),
        ensures
            *r == configs@[self.config as int],
    {
        &configs[self.config]
    }

    /// The width and the height of the pbuffer that has to be made, if one has to.
    pub fn pbuffer(&self) -> (r: Option<(u32, u32)>)
        ensures
            r == (if self.search.needs_pbuffer {
                Some((1u32, 1u32))
            } else {
                None
            }),
    {
        if self.search.needs_pbuffer {
            Some((DUMMY_PBUFFER_SIZE, DUMMY_PBUFFER_SIZE))
        } else {
            None
        }
    }

    /// Goes on with the pbuffer that was made. Where one is needed and none could be made, there
    /// is no instance; where none is needed there is none.
    pub fn pbuffer_created<P>(&self, made: Option<P>) -> (r: Result<Option<P>, InstanceError>)
        ensures
            r is Ok <==> (self.search.needs_pbuffer ==> made is Some),
            r matches Ok(pbuffer) ==> pbuffer == (if self.search.needs_pbuffer {
                made
            } else {
                None
            }),
            r matches Err(error) ==> error.message@ == "error in create_pbuffer_surface"@,
    {
        if self.search.needs_pbuffer {
            match made {
                Some(pbuffer) => Ok(Some(pbuffer)),
                None => Err(InstanceError::new("error in create_pbuffer_surface".to_owned())),
            }
        } else {
            Ok(None)
        }
    }

    /// The context that was made, on its display and with its pbuffer.
    pub open spec fn spec_egl<C, D, P>(
        self,
        display: D,
        context: C,
        pbuffer: Option<P>,
    ) -> EglContext<C, D, P> {
        EglContext { context, version: self.search.version, display, pbuffer }
    }

    /// Ends with the context that was made, its display and the pbuffer that it needs. Of the
    /// configurations that were found the chosen one is kept.
    pub fn created<C, D, P, K>(
        &self,
        display: D,
        context: C,
        pbuffer: Option<P>,
        configs: Vec<K>,
    ) -> (r: Inner<C, D, P, K>)
        requires
            pbuffer is Some == self.search.needs_pbuffer,
            self.config < configs@.len(),
        ensures
            r == (Inner {
                egl: self.spec_egl(display, context, pbuffer),
                version: (3i32, 0i32),
                supports_native_window: self.supports_native_window,
                config: configs@[self.config as int],
                wl_display: None,
                force_gles_minor_version: self.search.force_gles_minor_version,
                srgb_kind: self.search.srgb_kind,
            }),
    {
        let mut configs = configs;
        let config = configs.swap_remove(self.config);
        Inner {
            egl: EglContext { display, context, version: self.search.version, pbuffer },
            wl_display: None,
            version: (3, 0),
            supports_native_window: self.supports_native_window,
            config,
            force_gles_minor_version: self.search.force_gles_minor_version,
            srgb_kind: self.search.srgb_kind,
        }
    }
}

/// Where there is no window, a context is current without a surface exactly on the displays that
/// allow it: from EGL 1.5 on, or with `EGL_KHR_surfaceless_context`. On all others it is current
/// with its pbuffer.
pub proof fn law_surfaceless_only_where_allowed<C, D, P>(
    display_version: Seq<char>,
    display_extensions: Seq<String>,
    force_gles_minor_version: Gles3MinorVersion,
    search: ContextSearch,
    display: D,
    context: C,
    pbuffer: Option<P>,
)
    requires
        ConfigSearch::spec_begin(display_version, display_extensions, force_gles_minor_version)
            == Some(search.search),
        pbuffer is Some == search.search.needs_pbuffer,
    ensures
        ({
            let egl = search.spec_egl(display, context, pbuffer);
            let allowed = is_at_least(egl.version, 1, 5) || has_extension(
                display_extensions,
                surfaceless_extension(),
            );
            egl.spec_make_current() == (if allowed {
                Command::MakeCurrentSurfaceless
            } else {
                Command::MakeCurrentPbuffer
            })
        }),
{
}

/// A display that reports its version as `EGL {major}.{minor}` is never turned away, and the
/// version is the one it reports.
pub proof fn law_reported_version_is_kept(
    major: i32,
    minor: i32,
    display_extensions: Seq<String>,
    force_gles_minor_version: Gles3MinorVersion,
)
    ensures
        ConfigSearch::spec_begin(
            version_text(major as int, minor as int),
            display_extensions,
            force_gles_minor_version,
        ) == Some(
            ConfigSearch {
                version: (major, minor),
                srgb_kind: srgb_kind_of((major, minor), display_extensions),
                needs_pbuffer: spec_needs_pbuffer((major, minor), display_extensions),
                force_gles_minor_version,
            },
        ),
{
    law_version_round_trip(major, minor);
}

/// A search begins exactly where a version can be read, and knows that version. Its support for
/// sRGB and its need for a pbuffer each depend on the version and on one extension of their own.
pub proof fn law_begin_cases(
    display_version: Seq<char>,
    display_extensions: Seq<String>,
    force_gles_minor_version: Gles3MinorVersion,
)
    ensures
        ({
            let begun = ConfigSearch::spec_begin(
                display_version,
                display_extensions,
                force_gles_minor_version,
            );
            let colorspace = exists|i: int|
                0 <= i < display_extensions.len() && (#[trigger] display_extensions[i])@
                    == "EGL_KHR_gl_colorspace"@;
            let surfaceless = exists|i: int|
                0 <= i < display_extensions.len() && (#[trigger] display_extensions[i])@
                    == "EGL_KHR_surfaceless_context"@;
            &&& begun is Some <==> egl_version_of(display_version) is Some
            &&& begun matches Some(search) ==> {
                let modern = search.version.0 > 1 || (search.version.0 == 1 && search.version.1
                    >= 5);
                &&& Some(search.version) == egl_version_of(display_version)
                &&& search.force_gles_minor_version == force_gles_minor_version
                &&& search.needs_pbuffer <==> !modern && !surfaceless
                &&& search.srgb_kind == (if modern {
                    SrgbFrameBufferKind::Core
                } else if colorspace {
                    SrgbFrameBufferKind::Khr
                } else {
                    SrgbFrameBufferKind::Unsupported
                })
            }
        }),
{
}

/// The context of an instance is the one that was made, on its display and with its pbuffer, and
/// has the version that the search knew.
pub proof fn law_context_has_its_parts<C, D, P>(
    search: ContextSearch,
    display: D,
    context: C,
    pbuffer: Option<P>,
)
    ensures
        search.spec_egl(display, context, pbuffer).context == context,
        search.spec_egl(display, context, pbuffer).display == display,
        search.spec_egl(display, context, pbuffer).pbuffer == pbuffer,
        search.spec_egl(display, context, pbuffer).version == search.search.version,
{
}

} // verus!
