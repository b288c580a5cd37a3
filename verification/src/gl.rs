//! The commands that are sent to EGL and OpenGL, and what each of them does to their state.

use vstd::prelude::*;

verus! {

/// The name of a framebuffer object.
#[derive(Clone, Copy, Debug, PartialEq, Eq, Structural)]
pub struct Framebuffer(pub u32);

/// The name of a renderbuffer object.
#[derive(Clone, Copy, Debug, PartialEq, Eq, Structural)]
pub struct Renderbuffer(pub u32);

/// What can be enabled and disabled.
#[derive(Clone, Copy, Debug, PartialEq, Eq, Structural)]
pub enum Capability {
    /// `GL_SCISSOR_TEST`
    ScissorTest,
    /// `GL_FRAMEBUFFER_SRGB`
    FramebufferSrgb,
    /// `GL_DEBUG_OUTPUT`
    DebugOutput,
}

/// Where a framebuffer is bound.
#[derive(Clone, Copy, Debug, PartialEq, Eq, Structural)]
pub enum FramebufferTarget {
    /// `GL_DRAW_FRAMEBUFFER`
    Draw,
    /// `GL_READ_FRAMEBUFFER`
    Read,
}

/// The two rectangles of a blit. A rectangle whose second coordinate is the smaller one is
/// mirrored.
#[derive(Clone, Copy, Debug, PartialEq, Eq, Structural)]
pub struct Blit {
    pub src_x0: i32,
    pub src_y0: i32,
    pub src_x1: i32,
    pub src_y1: i32,
    pub dst_x0: i32,
    pub dst_y0: i32,
    pub dst_x1: i32,
    pub dst_y1: i32,
}

/// One call to EGL or OpenGL. Unless more is said where it is listed, what such a call returns
/// decides nothing.
#[derive(Clone, Copy, Debug, PartialEq, Eq, Structural)]
pub enum Command {
    /// Make the context current on this thread, without a surface.
    MakeCurrentSurfaceless,
    /// Make the context current on this thread, with its pbuffer.
    MakeCurrentPbuffer,
    /// Make the context current on this thread, with the window surface of the swapchain.
    MakeCurrentWindow,
    /// Make the context not current on this thread.
    MakeNotCurrent,
    /// Swap the buffers of the window surface of the swapchain.
    SwapBuffers,
    /// Load the OpenGL functions.
    LoadFunctions,
    /// Drop the loaded OpenGL functions.
    DropFunctions,
    /// `glEnable`
    Enable(Capability),
    /// `glDisable`
    Disable(Capability),
    /// `glColorMask`
    ColorMask { red: bool, green: bool, blue: bool, alpha: bool },
    /// `glBindFramebuffer`
    BindFramebuffer(FramebufferTarget, Option<Framebuffer>),
    /// `glBindRenderbuffer` on `GL_RENDERBUFFER`
    BindRenderbuffer(Option<Renderbuffer>),
    /// `glRenderbufferStorage` on `GL_RENDERBUFFER`
    RenderbufferStorage { format: u32, width: i32, height: i32 },
    /// `glFramebufferRenderbuffer` on `GL_COLOR_ATTACHMENT0`
    AttachColor(FramebufferTarget, Option<Renderbuffer>),
    /// `glBlitFramebuffer` of the color buffer, with `GL_NEAREST`
    BlitColorNearest(Blit),
    /// `glDeleteRenderbuffers`
    DeleteRenderbuffer(Renderbuffer),
    /// `glDeleteFramebuffers`
    DeleteFramebuffer(Framebuffer),
    /// Report `GL_MAX_LABEL_LENGTH`.
    ReportMaxLabelLength,
    /// Have debug messages reported.
    SetDebugCallback,
}

impl Blit {
    /// Whether line `from` of what is read is copied to line `to` of what is drawn to: the middle
    /// of the one lies in its rectangle where the middle of the other lies in its own.
    pub open spec fn copies_line(self, from: int, to: int) -> bool {
        (2 * from + 1 - 2 * self.src_y0) * (self.dst_y1 - self.dst_y0) == (2 * to + 1 - 2
            * self.dst_y0) * (self.src_y1 - self.src_y0)
    }

    /// Whether column `from` of what is read is copied to column `to` of what is drawn to.
    pub open spec fn copies_column(self, from: int, to: int) -> bool {
        (2 * from + 1 - 2 * self.src_x0) * (self.dst_x1 - self.dst_x0) == (2 * to + 1 - 2
            * self.dst_x0) * (self.src_x1 - self.src_x0)
    }
}

/// What the context is current with on this thread.
#[derive(Clone, Copy, Debug, PartialEq, Eq, Structural)]
pub enum Current {
    /// It is not current.
    Nothing,
    /// It is current without a surface.
    Surfaceless,
    /// It is current with its pbuffer.
    Pbuffer,
    /// It is current with the window surface of the swapchain.
    Window,
}

/// The memory of a renderbuffer.
pub struct Storage {
    pub format: u32,
    pub width: i32,
    pub height: i32,
}

/// Which components of a color are written.
pub struct ColorMask {
    pub red: bool,
    pub green: bool,
    pub blue: bool,
    pub alpha: bool,
}

/// The state of EGL and OpenGL, where each command succeeds. The content of buffers and windows,
/// which copies and swaps change, is left out.
pub struct GlState {
    /// What the context is current with.
    pub current: Current,
    /// Whether the OpenGL functions are loaded.
    pub loaded: bool,
    /// Whether debug messages are reported.
    pub reports_debug: bool,
    /// The capabilities that are enabled.
    pub enabled: Set<Capability>,
    /// Which components of a color are written.
    pub color_mask: ColorMask,
    /// The framebuffer that is drawn to; `None` is the window.
    pub draw: Option<Framebuffer>,
    /// The framebuffer that is read from; `None` is the window.
    pub read: Option<Framebuffer>,
    /// The renderbuffer that is bound.
    pub bound: Option<Renderbuffer>,
    /// The framebuffers that exist.
    pub framebuffers: Set<Framebuffer>,
    /// The renderbuffers that exist.
    pub renderbuffers: Set<Renderbuffer>,
    /// The memory of each renderbuffer that has some.
    pub storage: Map<Renderbuffer, Storage>,
    /// The color attachment of each framebuffer that has one.
    pub color: Map<Framebuffer, Renderbuffer>,
}

impl Command {
    /// Whether the call is one to OpenGL or on the current context.
    pub open spec fn needs_context(self) -> bool {
        match self {
            Command::MakeCurrentSurfaceless => false,
            Command::MakeCurrentPbuffer => false,
            Command::MakeCurrentWindow => false,
            Command::MakeNotCurrent => false,
            _ => true,
        }
    }
}

impl GlState {
    /// The framebuffer that is bound to a target.
    pub open spec fn at(self, target: FramebufferTarget) -> Option<Framebuffer> {
        match target {
            FramebufferTarget::Draw => self.draw,
            FramebufferTarget::Read => self.read,
        }
    }

    /// The framebuffers that are bound and have this renderbuffer as their color attachment.
    pub open spec fn bound_with(self, renderbuffer: Renderbuffer) -> Set<Framebuffer> {
        Set::new(
            |framebuffer: Framebuffer|
                {
                    &&& self.draw == Some(framebuffer) || self.read == Some(framebuffer)
                    &&& self.color.dom().contains(framebuffer)
                    &&& self.color[framebuffer] == renderbuffer
                },
        )
    }

    /// The state after a new, empty renderbuffer was made.
    pub open spec fn with_renderbuffer(self, renderbuffer: Renderbuffer) -> GlState {
        GlState { renderbuffers: self.renderbuffers.insert(renderbuffer), ..self }
    }

    /// The state after a new, empty framebuffer was made.
    pub open spec fn with_framebuffer(self, framebuffer: Framebuffer) -> GlState {
        GlState { framebuffers: self.framebuffers.insert(framebuffer), ..self }
    }

    /// The state after one command. Deleting an object unbinds it and takes with it what belongs to
    /// it; a renderbuffer is also detached from the framebuffers that are bound. Dropping the
    /// OpenGL functions ends the reports of debug messages.
    pub open spec fn apply(self, command: Command) -> GlState {
        match command {
            Command::MakeCurrentSurfaceless => GlState { current: Current::Surfaceless, ..self },
            Command::MakeCurrentPbuffer => GlState { current: Current::Pbuffer, ..self },
            Command::MakeCurrentWindow => GlState { current: Current::Window, ..self },
            Command::MakeNotCurrent => GlState { current: Current::Nothing, ..self },
            Command::LoadFunctions => GlState { loaded: true, ..self },
            Command::DropFunctions => GlState { loaded: false, reports_debug: false, ..self },
            Command::SetDebugCallback => GlState { reports_debug: true, ..self },
            Command::ColorMask { red, green, blue, alpha } => GlState {
                color_mask: ColorMask { red, green, blue, alpha },
                ..self
            },
            Command::Enable(what) => GlState { enabled: self.enabled.insert(what), ..self },
            Command::Disable(what) => GlState { enabled: self.enabled.remove(what), ..self },
            Command::BindFramebuffer(FramebufferTarget::Draw, framebuffer) => GlState {
                draw: framebuffer,
                ..self
            },
            Command::BindFramebuffer(FramebufferTarget::Read, framebuffer) => GlState {
                read: framebuffer,
                ..self
            },
            Command::BindRenderbuffer(renderbuffer) => GlState { bound: renderbuffer, ..self },
            Command::RenderbufferStorage { format, width, height } => match self.bound {
                Some(renderbuffer) => GlState {
                    storage: self.storage.insert(renderbuffer, Storage { format, width, height }),
                    ..self
                },
                None => self,
            },
            Command::AttachColor(target, renderbuffer) => match (self.at(target), renderbuffer) {
                (Some(framebuffer), Some(attached)) => GlState {
                    color: self.color.insert(framebuffer, attached),
                    ..self
                },
                (Some(framebuffer), None) => GlState { color: self.color.remove(framebuffer), ..self },
                (None, _) => self,
            },
            Command::DeleteRenderbuffer(renderbuffer) => GlState {
                renderbuffers: self.renderbuffers.remove(renderbuffer),
                storage: self.storage.remove(renderbuffer),
                color: self.color.remove_keys(self.bound_with(renderbuffer)),
                bound: if self.bound == Some(renderbuffer) {
                    None
                } else {
                    self.bound
                },
                ..self
            },
            Command::DeleteFramebuffer(framebuffer) => GlState {
                framebuffers: self.framebuffers.remove(framebuffer),
                color: self.color.remove(framebuffer),
                draw: if self.draw == Some(framebuffer) {
                    None
                } else {
                    self.draw
                },
                read: if self.read == Some(framebuffer) {
                    None
                } else {
                    self.read
                },
                ..self
            },
            Command::SwapBuffers | Command::BlitColorNearest(_) | Command::ReportMaxLabelLength => self,
        }
    }

    /// The state after one command that succeeds or fails. One that fails changes nothing.
    pub open spec fn attempt(self, command: Command, succeeds: bool) -> GlState {
        if succeeds {
            self.apply(command)
        } else {
            self
        }
    }

    /// The state after the first `n` of the commands.
    pub open spec fn after(self, commands: Seq<Command>, n: nat) -> GlState
        decreases n,
    {
        if n == 0 {
            self
        } else {
            self.after(commands, (n - 1) as nat).apply(commands[n - 1])
        }
    }

    /// The state after all of the commands.
    pub open spec fn run(self, commands: Seq<Command>) -> GlState {
        self.after(commands, commands.len())
    }

    /// Whether the context is current at each command that needs it.
    #[verifier::opaque]
    pub open spec fn is_current_for(self, commands: Seq<Command>) -> bool {
        forall|k: int|
            0 <= k < commands.len() && (#[trigger] commands[k]).needs_context() ==> self.after(
                commands,
                k as nat,
            ).current != Current::Nothing
    }
}

/// The state within the first of two lists is that of the first list alone.
proof fn lemma_after_first(state: GlState, first: Seq<Command>, second: Seq<Command>, n: nat)
    requires
        n <= first.len(),
    ensures
        state.after(first + second, n) == state.after(first, n),
    decreases n,
{
    if n > 0 {
        lemma_after_first(state, first, second, (n - 1) as nat);
        assert((first + second)[n - 1] == first[n - 1]);
    }
}

/// The state within the second of two lists is that of the second list from where the first one
/// led.
proof fn lemma_after_second(state: GlState, first: Seq<Command>, second: Seq<Command>, n: nat)
    requires
        n <= second.len(),
    ensures
        state.after(first + second, first.len() + n) == state.run(first).after(second, n),
    decreases n,
{
    if n == 0 {
        lemma_after_first(state, first, second, first.len());
    } else {
        lemma_after_second(state, first, second, (n - 1) as nat);
        assert((first + second)[first.len() + n - 1] == second[n - 1]);
    }
}

/// The context is current at a command that needs it, of a list for which it is current.
proof fn lemma_current_within(state: GlState, commands: Seq<Command>, k: nat)
    requires
        state.is_current_for(commands),
        k < commands.len(),
        commands[k as int].needs_context(),
    ensures
        state.after(commands, k).current != Current::Nothing,
{
    reveal(GlState::is_current_for);
}

/// The context is current at a command of two lists where it is for each of them in turn.
proof fn lemma_current_at(state: GlState, first: Seq<Command>, second: Seq<Command>, k: int)
    requires
        state.is_current_for(first),
        state.run(first).is_current_for(second),
        0 <= k < (first + second).len(),
        (first + second)[k].needs_context(),
    ensures
        state.after(first + second, k as nat).current != Current::Nothing,
{
    if k < first.len() {
        assert((first + second)[k] == first[k]);
        lemma_current_within(state, first, k as nat);
        lemma_after_first(state, first, second, k as nat);
    } else {
        let j = (k - first.len()) as nat;
        assert((first + second)[k] == second[j as int]);
        lemma_current_within(state.run(first), second, j);
        lemma_after_second(state, first, second, j);
    }
}

/// Two lists of commands, one after the other, do what each of them does in turn.
pub proof fn law_commands_compose(state: GlState, first: Seq<Command>, second: Seq<Command>)
    ensures
        state.run(first + second) == state.run(first).run(second),
        state.is_current_for(first) && state.run(first).is_current_for(second)
            ==> state.is_current_for(first + second),
{
    lemma_after_second(state, first, second, second.len());
    if state.is_current_for(first) && state.run(first).is_current_for(second) {
        let both = first + second;
        assert(state.is_current_for(both)) by {
            assert forall|k: int|
                0 <= k < both.len() && (#[trigger] both[k]).needs_context() implies state.after(
                both,
                k as nat,
            ).current != Current::Nothing by {
                lemma_current_at(state, first, second, k);
            }
            reveal(GlState::is_current_for);
        }
    }
}

/// A list of one command does what the command does.
pub proof fn lemma_run_one(state: GlState, command: Command)
    ensures
        state.run(seq![command]) == state.apply(command),
        state.current != Current::Nothing || !command.needs_context() ==> state.is_current_for(
            seq![command],
        ),
{
    reveal(GlState::is_current_for);
    let c = seq![command];
    assert(state.after(c, 0) == state);
    assert(state.after(c, 1) == state.apply(command));
}

/// A list of no commands does nothing.
pub proof fn lemma_run_none(state: GlState)
    ensures
        state.run(seq![]) == state,
        state.is_current_for(seq![]),
{
    reveal(GlState::is_current_for);
}

/// Making the context current, or not, changes nothing else. Loading and dropping the OpenGL
/// functions and setting the callback change what they name; swapping and reporting nothing.
pub proof fn law_context_commands(state: GlState)
    ensures
        state.apply(Command::MakeCurrentSurfaceless) == (GlState {
            current: Current::Surfaceless,
            ..state
        }),
        state.apply(Command::MakeCurrentPbuffer) == (GlState { current: Current::Pbuffer, ..state }),
        state.apply(Command::MakeCurrentWindow) == (GlState { current: Current::Window, ..state }),
        state.apply(Command::MakeNotCurrent) == (GlState { current: Current::Nothing, ..state }),
        state.apply(Command::LoadFunctions) == (GlState { loaded: true, ..state }),
        state.apply(Command::DropFunctions) == (GlState {
            loaded: false,
            reports_debug: false,
            ..state
        }),
        state.apply(Command::SetDebugCallback) == (GlState { reports_debug: true, ..state }),
        state.apply(Command::SwapBuffers) == state,
        state.apply(Command::ReportMaxLabelLength) == state,
{
}

/// Enabling, disabling and masking change nothing but what they name, and a copy nothing at all.
pub proof fn law_drawing_commands(
    state: GlState,
    what: Capability,
    other: Capability,
    red: bool,
    green: bool,
    blue: bool,
    alpha: bool,
    blit: Blit,
)
    ensures
        state.apply(Command::Enable(what)).enabled.contains(other) <==> (other == what
            || state.enabled.contains(other)),
        state.apply(Command::Disable(what)).enabled.contains(other) <==> (other != what
            && state.enabled.contains(other)),
        state.apply(Command::Enable(what)) == (GlState {
            enabled: state.apply(Command::Enable(what)).enabled,
            ..state
        }),
        state.apply(Command::Disable(what)) == (GlState {
            enabled: state.apply(Command::Disable(what)).enabled,
            ..state
        }),
        state.apply(Command::ColorMask { red, green, blue, alpha }) == (GlState {
            color_mask: ColorMask { red, green, blue, alpha },
            ..state
        }),
        state.apply(Command::BlitColorNearest(blit)) == state,
{
}

/// Binding changes the one binding that it names. Storage goes to the renderbuffer that is bound,
/// and an attachment to the framebuffer that is bound to the target.
pub proof fn law_binding_commands(
    state: GlState,
    framebuffer: Framebuffer,
    renderbuffer: Renderbuffer,
    target: Option<Framebuffer>,
    bound: Option<Renderbuffer>,
    format: u32,
    width: i32,
    height: i32,
)
    ensures
        state.apply(Command::BindFramebuffer(FramebufferTarget::Draw, target)) == (GlState {
            draw: target,
            ..state
        }),
        state.apply(Command::BindFramebuffer(FramebufferTarget::Read, target)) == (GlState {
            read: target,
            ..state
        }),
        state.apply(Command::BindRenderbuffer(bound)) == (GlState { bound, ..state }),
        state.bound == Some(renderbuffer) ==> state.apply(
            Command::RenderbufferStorage { format, width, height },
        ) == (GlState {
            storage: state.storage.insert(renderbuffer, Storage { format, width, height }),
            ..state
        }),
        state.read == Some(framebuffer) ==> state.apply(
            Command::AttachColor(FramebufferTarget::Read, Some(renderbuffer)),
        ) == (GlState { color: state.color.insert(framebuffer, renderbuffer), ..state }),
        state.draw == Some(framebuffer) ==> state.apply(
            Command::AttachColor(FramebufferTarget::Draw, Some(renderbuffer)),
        ) == (GlState { color: state.color.insert(framebuffer, renderbuffer), ..state }),
{
}

/// A renderbuffer that was deleted is gone with its memory, and neither bound nor attached to a
/// framebuffer that is bound. Every other renderbuffer stays, with its memory.
pub proof fn law_deleted_renderbuffer_is_gone(
    state: GlState,
    renderbuffer: Renderbuffer,
    other: Renderbuffer,
)
    ensures
        ({
            let end = state.apply(Command::DeleteRenderbuffer(renderbuffer));
            &&& !end.renderbuffers.contains(renderbuffer)
            &&& !end.storage.dom().contains(renderbuffer)
            &&& end.bound != Some(renderbuffer)
            &&& end.read matches Some(framebuffer) ==> end.color.dom().contains(framebuffer)
                ==> end.color[framebuffer] != renderbuffer
            &&& end.draw matches Some(framebuffer) ==> end.color.dom().contains(framebuffer)
                ==> end.color[framebuffer] != renderbuffer
            &&& other != renderbuffer ==> {
                &&& end.renderbuffers.contains(other) == state.renderbuffers.contains(other)
                &&& end.storage.dom().contains(other) == state.storage.dom().contains(other)
                &&& state.storage.dom().contains(other) ==> end.storage[other]
                    == state.storage[other]
                &&& state.bound == Some(other) ==> end.bound == Some(other)
            }
            &&& end.framebuffers == state.framebuffers
            &&& end.read == state.read
            &&& end.draw == state.draw
            &&& end.current == state.current
            &&& end.enabled == state.enabled
        }),
{
}

/// A framebuffer that was deleted is gone with its attachment, and not bound. Every other
/// framebuffer stays, with its attachment.
pub proof fn law_deleted_framebuffer_is_gone(
    state: GlState,
    framebuffer: Framebuffer,
    other: Framebuffer,
)
    ensures
        ({
            let end = state.apply(Command::DeleteFramebuffer(framebuffer));
            &&& !end.framebuffers.contains(framebuffer)
            &&& !end.color.dom().contains(framebuffer)
            &&& end.draw != Some(framebuffer)
            &&& end.read != Some(framebuffer)
            &&& other != framebuffer ==> {
                &&& end.framebuffers.contains(other) == state.framebuffers.contains(other)
                &&& end.color.dom().contains(other) == state.color.dom().contains(other)
                &&& state.color.dom().contains(other) ==> end.color[other] == state.color[other]
                &&& state.draw == Some(other) ==> end.draw == Some(other)
                &&& state.read == Some(other) ==> end.read == Some(other)
            }
            &&& end.renderbuffers == state.renderbuffers
            &&& end.storage == state.storage
            &&& end.bound == state.bound
            &&& end.current == state.current
            &&& end.enabled == state.enabled
        }),
{
}

/// Where a list of commands finds the context current, it is current before each of them but those
/// that make it current or not current.
pub proof fn law_current_before_each(state: GlState, commands: Seq<Command>, k: int)
    requires
        state.is_current_for(commands),
        0 <= k < commands.len(),
        commands[k] != Command::MakeCurrentSurfaceless,
        commands[k] != Command::MakeCurrentPbuffer,
        commands[k] != Command::MakeCurrentWindow,
        commands[k] != Command::MakeNotCurrent,
    ensures
        state.run(commands.take(k)).current != Current::Nothing,
{
    lemma_current_within(state, commands, k as nat);
    assert(commands =~= commands.take(k) + commands.skip(k));
    lemma_after_first(state, commands.take(k), commands.skip(k), k as nat);
}

/// An object that was made exists, without memory or attachment beyond what its name had, and
/// nothing else has changed.
pub proof fn law_made_objects_exist(
    state: GlState,
    renderbuffer: Renderbuffer,
    framebuffer: Framebuffer,
)
    ensures
        state.with_renderbuffer(renderbuffer) == (GlState {
            renderbuffers: state.renderbuffers.insert(renderbuffer),
            ..state
        }),
        state.with_framebuffer(framebuffer) == (GlState {
            framebuffers: state.framebuffers.insert(framebuffer),
            ..state
        }),
{
}

} // verus!
