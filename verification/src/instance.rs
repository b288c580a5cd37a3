//! The instance: where surfaces and adapters come from.

use vstd::prelude::*;
use vstd::pervasive::cloned;
use crate::context::AdapterContext;
use crate::creation::Inner;
use crate::error::InstanceError;
use crate::gl::{Capability, Command, Current, GlState};
use crate::gl::{law_commands_compose, lemma_run_none, lemma_run_one};
use crate::srgb::SrgbFrameBufferKind;
use crate::surface::{Surface, Swapchain, WindowKind, WindowSystemInterface};
use crate::surface::law_present_leaves_context_free;

verus! {

/// What an instance is asked to do besides rendering.
#[derive(Clone, Copy, Debug, PartialEq, Eq, Structural)]
pub struct InstanceFlags {
    /// Whether debug information is wanted.
    pub debug: bool,
    /// Whether validation is wanted.
    pub validation: bool,
}

/// An instance with an EGL context `C` on a display `D` and a configuration `K`.
#[derive(Debug)]
pub struct Instance<C, D, P, K> {
    /// The window system.
    pub wsi: WindowSystemInterface,
    /// What it is asked to do besides rendering.
    pub flags: InstanceFlags,
    /// What it works with.
    pub inner: Inner<C, D, P, K>,
}

impl<C, D, P, K> Instance<C, D, P, K> {
    /// Makes an instance of what was created for it, or hands on why nothing could be.
    pub fn init(flags: InstanceFlags, inner: Result<Inner<C, D, P, K>, InstanceError>) -> (r: Result<
        Self,
        InstanceError,
    >)
        ensures
            r == (match inner {
                Ok(inner) => Ok(
                    Instance {
                        wsi: WindowSystemInterface { kind: WindowKind::Wayland },
                        flags,
                        inner,
                    },
                ),
                Err(error) => Err(error),
            }),
    {
        match inner {
            Ok(inner) => Ok(
                Instance { wsi: WindowSystemInterface { kind: WindowKind::Wayland }, flags, inner },
            ),
            Err(error) => Err(error),
        }
    }

    /// Makes the surface of a window. It is not configured, and the context is not current
    /// afterwards. The display that is handed over does not matter: surfaces are on the display
    /// of the instance.
    pub fn create_surface<H, W, S>(&self, _display_handle: H, window_handle: W) -> (r: (
        Result<Surface<C, D, P, K, W, S>, InstanceError>,
        Vec<Command>,
    )) where C: Clone, D: Clone, P: Clone, K: Clone
        ensures
            r.0 is Ok,
            self.inner.egl.is_cloned_by(r.0->Ok_0.egl),
            r.0->Ok_0.wsi == self.wsi,
            cloned(self.inner.config, r.0->Ok_0.config),
            r.0->Ok_0.presentable == self.inner.supports_native_window,
            r.0->Ok_0.raw_window_handle == window_handle,
            r.0->Ok_0.swapchain is None,
            r.0->Ok_0.srgb_kind == self.inner.srgb_kind,
            r.1@ == seq![Command::MakeNotCurrent],
    {
        let mut commands: Vec<Command> = Vec::new();
        commands.push(self.inner.egl.unmake_current());
        let surface = Surface {
            egl: self.inner.egl.clone(),
            wsi: self.wsi,
            config: self.inner.config.clone(),
            presentable: self.inner.supports_native_window,
            raw_window_handle: window_handle,
            swapchain: None,
            srgb_kind: self.inner.srgb_kind,
        };
        (Ok(surface), commands)
    }

    /// The commands that load the OpenGL functions.
    pub open spec fn load_commands(self) -> Seq<Command> {
        seq![self.inner.egl.spec_make_current(), Command::LoadFunctions]
    }

    /// The commands that prepare the OpenGL functions for an adapter. OpenGL, other than OpenGL
    /// ES, has sRGB conversion off until it is enabled.
    pub open spec fn prepare_commands(self, supports_debug: bool) -> Seq<Command> {
        (if self.inner.srgb_kind != SrgbFrameBufferKind::Unsupported {
            seq![Command::Enable(Capability::FramebufferSrgb)]
        } else {
            seq![]
        }) + (if self.flags.debug && supports_debug {
            seq![Command::ReportMaxLabelLength]
        } else {
            seq![]
        }) + (if self.flags.validation && supports_debug {
            seq![Command::Enable(Capability::DebugOutput), Command::SetDebugCallback]
        } else {
            seq![]
        }) + seq![Command::MakeNotCurrent]
    }

    /// Begins to look for adapters: how the OpenGL functions are loaded.
    pub fn enumerate_adapters(&self) -> (r: Vec<Command>)
        ensures
            r@ == self.load_commands(),
    {
        let mut commands: Vec<Command> = Vec::new();
        commands.push(self.inner.egl.make_current());
        commands.push(Command::LoadFunctions);
        assert(commands@ =~= self.load_commands());
        commands
    }

    /// Goes on with the OpenGL functions that were loaded, which support debugging or do not.
    pub fn prepare_adapter(&self, supports_debug: bool) -> (r: Vec<Command>)
        ensures
            r@ == self.prepare_commands(supports_debug),
    {
        let mut commands: Vec<Command> = Vec::new();
        match self.inner.srgb_kind {
            SrgbFrameBufferKind::Unsupported => {},
            _ => {
                commands.push(Command::Enable(Capability::FramebufferSrgb));
            },
        }
        if self.flags.debug && supports_debug {
            commands.push(Command::ReportMaxLabelLength);
        }
        if self.flags.validation && supports_debug {
            commands.push(Command::Enable(Capability::DebugOutput));
            commands.push(Command::SetDebugCallback);
        }
        commands.push(self.inner.egl.unmake_current());
        assert(commands@ =~= self.prepare_commands(supports_debug));
        commands
    }

    /// Ends with the context of the adapter: the OpenGL functions and the context of the
    /// instance, which the adapter owns.
    pub fn adapter_context<G>(&self, glow: G) -> (r: AdapterContext<G, C, D, P>) where
        C: Clone,
        D: Clone,
        P: Clone,

        ensures
            r.glow == glow,
            r.egl is Some,
            self.inner.egl.is_cloned_by(r.egl->0),
    {
        AdapterContext { glow, egl: Some(self.inner.egl.clone()) }
    }
}

/// The state after the OpenGL functions were loaded and prepared for an adapter.
pub open spec fn prepared(
    state: GlState,
    srgb_kind: SrgbFrameBufferKind,
    flags: InstanceFlags,
    supports_debug: bool,
) -> GlState {
    let converting = if srgb_kind != SrgbFrameBufferKind::Unsupported {
        state.enabled.insert(Capability::FramebufferSrgb)
    } else {
        state.enabled
    };
    GlState {
        current: Current::Nothing,
        loaded: true,
        reports_debug: state.reports_debug || (flags.validation && supports_debug),
        enabled: if flags.validation && supports_debug {
            converting.insert(Capability::DebugOutput)
        } else {
            converting
        },
        ..state
    }
}

/// Looking for adapters loads and prepares the OpenGL functions while the context is current, and
/// leaves it not current. sRGB conversion is enabled where it is supported. Debug output is
/// enabled, and debug messages are reported, where validation is wanted and debugging supported.
/// Nothing else changes.
pub proof fn law_adapters_leave_context_free<C, D, P, K>(
    instance: Instance<C, D, P, K>,
    supports_debug: bool,
    state: GlState,
)
    ensures
        state.is_current_for(instance.load_commands()),
        state.run(instance.load_commands()).is_current_for(
            instance.prepare_commands(supports_debug),
        ),
        state.run(instance.load_commands()).run(
            instance.prepare_commands(supports_debug),
        ) == prepared(state, instance.inner.srgb_kind, instance.flags, supports_debug),
{
    let load = instance.load_commands();
    let loaded = state.run(load);
    let make = instance.inner.egl.spec_make_current();
    lemma_run_one(state, make);
    lemma_run_one(state.apply(make), Command::LoadFunctions);
    law_commands_compose(state, seq![make], seq![Command::LoadFunctions]);
    assert(load =~= seq![make] + seq![Command::LoadFunctions]);
    assert(loaded == (GlState { current: instance.inner.egl.idle(), loaded: true, ..state }));
    lemma_prepare(instance, supports_debug, loaded);
}

/// What preparing an adapter does while the context is current.
proof fn lemma_prepare<C, D, P, K>(
    instance: Instance<C, D, P, K>,
    supports_debug: bool,
    state: GlState,
)
    requires
        state.current != Current::Nothing,
        state.loaded,
    ensures
        state.is_current_for(instance.prepare_commands(supports_debug)),
        state.run(instance.prepare_commands(supports_debug)) == prepared(
            state,
            instance.inner.srgb_kind,
            instance.flags,
            supports_debug,
        ),
{
    let none = Seq::<Command>::empty();
    let convert = if instance.inner.srgb_kind != SrgbFrameBufferKind::Unsupported {
        seq![Command::Enable(Capability::FramebufferSrgb)]
    } else {
        none
    };
    let report = if instance.flags.debug && supports_debug {
        seq![Command::ReportMaxLabelLength]
    } else {
        none
    };
    let validate = if instance.flags.validation && supports_debug {
        seq![Command::Enable(Capability::DebugOutput), Command::SetDebugCallback]
    } else {
        none
    };
    let leave = seq![Command::MakeNotCurrent];
    assert(instance.prepare_commands(supports_debug) =~= convert + report + validate + leave);
    lemma_run_none(state);
    lemma_run_one(state, Command::Enable(Capability::FramebufferSrgb));
    let s1 = state.run(convert);
    lemma_run_none(s1);
    lemma_run_one(s1, Command::ReportMaxLabelLength);
    law_commands_compose(state, convert, report);
    assert(s1.run(report) == s1);
    lemma_run_one(s1, Command::Enable(Capability::DebugOutput));
    lemma_run_one(s1.apply(Command::Enable(Capability::DebugOutput)), Command::SetDebugCallback);
    law_commands_compose(
        s1,
        seq![Command::Enable(Capability::DebugOutput)],
        seq![Command::SetDebugCallback],
    );
    assert(seq![Command::Enable(Capability::DebugOutput), Command::SetDebugCallback] =~= seq![
        Command::Enable(Capability::DebugOutput),
    ] + seq![Command::SetDebugCallback]);
    law_commands_compose(state, convert + report, validate);
    let s2 = s1.run(validate);
    lemma_run_one(s2, Command::MakeNotCurrent);
    law_commands_compose(state, convert + report + validate, leave);
}

/// Presenting leaves sRGB conversion and debug output as they were prepared for the adapter. Where
/// sRGB is not supported, conversion was off before.
pub proof fn law_present_keeps_what_was_prepared<S>(
    swapchain: Swapchain<S>,
    srgb_kind: SrgbFrameBufferKind,
    flags: InstanceFlags,
    supports_debug: bool,
    state: GlState,
)
    requires
        srgb_kind == SrgbFrameBufferKind::Unsupported ==> !state.enabled.contains(
            Capability::FramebufferSrgb,
        ),
    ensures
        ({
            let before = prepared(state, srgb_kind, flags, supports_debug);
            let shown = before.run(swapchain.present_commands(srgb_kind));
            &&& shown.enabled == before.enabled.remove(Capability::ScissorTest)
            &&& shown.current == before.current
            &&& before.enabled.contains(Capability::FramebufferSrgb) <==> srgb_kind
                != SrgbFrameBufferKind::Unsupported
        }),
{
    let before = prepared(state, srgb_kind, flags, supports_debug);
    law_present_leaves_context_free(swapchain, srgb_kind, before);
    assert(before.run(swapchain.present_commands(srgb_kind)).enabled =~= before.enabled.remove(
        Capability::ScissorTest,
    ));
}

/// Loading the OpenGL functions makes the context current, with its pbuffer where it has one, and
/// then loads them.
pub proof fn law_functions_are_loaded_while_current<C, D, P, K>(
    instance: Instance<C, D, P, K>,
    state: GlState,
)
    ensures
        instance.load_commands().len() == 2,
        instance.load_commands()[0] == (if instance.inner.egl.pbuffer is Some {
            Command::MakeCurrentPbuffer
        } else {
            Command::MakeCurrentSurfaceless
        }),
        instance.load_commands()[1] == Command::LoadFunctions,
        state.run(instance.load_commands()) == (GlState {
            current: if instance.inner.egl.pbuffer is Some {
                Current::Pbuffer
            } else {
                Current::Surfaceless
            },
            loaded: true,
            ..state
        }),
{
    let load = instance.load_commands();
    assert(state.after(load, 0) == state);
    assert(state.after(load, 1) == state.apply(load[0]));
    assert(state.after(load, 2) == state.apply(load[0]).apply(load[1]));
}

/// Preparing an adapter asks for each thing exactly where it is wanted and supported, once, and
/// ends with the context not current. Nothing else is done.
pub proof fn law_prepare_does_what_is_wanted<C, D, P, K>(
    instance: Instance<C, D, P, K>,
    supports_debug: bool,
)
    ensures
        ({
            let commands = instance.prepare_commands(supports_debug);
            let converts = instance.inner.srgb_kind == SrgbFrameBufferKind::Core
                || instance.inner.srgb_kind == SrgbFrameBufferKind::Khr;
            let reports = instance.flags.debug && supports_debug;
            let validates = instance.flags.validation && supports_debug;
            &&& commands.len() == (if converts {
                1int
            } else {
                0
            }) + (if reports {
                1int
            } else {
                0
            }) + (if validates {
                2int
            } else {
                0
            }) + 1
            &&& commands.last() == Command::MakeNotCurrent
            &&& commands.contains(Command::Enable(Capability::FramebufferSrgb)) <==> converts
            &&& commands.contains(Command::ReportMaxLabelLength) <==> reports
            &&& commands.contains(Command::Enable(Capability::DebugOutput)) <==> validates
            &&& commands.contains(Command::SetDebugCallback) <==> validates
            &&& converts ==> commands[0] == Command::Enable(Capability::FramebufferSrgb)
            &&& validates ==> commands[commands.len() - 2] == Command::SetDebugCallback
                && commands[commands.len() - 3] == Command::Enable(Capability::DebugOutput)
        }),
{
    let commands = instance.prepare_commands(supports_debug);
    let converts: int = if instance.inner.srgb_kind != SrgbFrameBufferKind::Unsupported {
        1
    } else {
        0
    };
    if instance.flags.debug && supports_debug {
        assert(commands[converts] == Command::ReportMaxLabelLength);
    }
}

/// Loading and preparing leave the context not current and the OpenGL functions loaded. A
/// capability is enabled afterwards if it was before, or if it is sRGB conversion and there is
/// support for it, or debug output and validation is wanted and debugging supported. Debug messages
/// are then reported. Nothing else changes.
pub proof fn law_prepared_state<C, D, P, K>(
    instance: Instance<C, D, P, K>,
    supports_debug: bool,
    state: GlState,
    what: Capability,
)
    ensures
        ({
            let end = state.run(instance.load_commands()).run(
                instance.prepare_commands(supports_debug),
            );
            let validates = instance.flags.validation && supports_debug;
            &&& end == (GlState {
                current: Current::Nothing,
                loaded: true,
                reports_debug: state.reports_debug || validates,
                enabled: end.enabled,
                ..state
            })
            &&& end.enabled.contains(what) <==> {
                ||| state.enabled.contains(what)
                ||| what == Capability::FramebufferSrgb && (instance.inner.srgb_kind
                    == SrgbFrameBufferKind::Core || instance.inner.srgb_kind
                    == SrgbFrameBufferKind::Khr)
                ||| what == Capability::DebugOutput && validates
            }
        }),
{
    law_adapters_leave_context_free(instance, supports_debug, state);
}

} // verus!
