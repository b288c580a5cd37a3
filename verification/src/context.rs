//! The EGL context of an adapter, and the lock that keeps it current.

use vstd::prelude::*;
use vstd::pervasive::cloned;
use crate::gl::{Command, Current, GlState};
use crate::gl::{law_commands_compose, lemma_run_one};

verus! {

/// The amount of time to wait while trying to obtain a lock to the adapter context.
pub const CONTEXT_LOCK_TIMEOUT_SECS: u64 = 1;

/// An EGL context `C` on a display `D`, with a pbuffer `P` where it cannot be current without a
/// surface.
#[derive(Debug)]
pub struct EglContext<C, D, P> {
    /// The context.
    pub context: C,
    /// The version of EGL that the display reports.
    pub version: (i32, i32),
    /// The display.
    pub display: D,
    /// The pbuffer that the context is current with where there is no window.
    pub pbuffer: Option<P>,
}

impl<C: Clone, D: Clone, P: Clone> Clone for EglContext<C, D, P> {
    fn clone(&self) -> (r: Self)
        ensures
            self.is_cloned_by(r),
    {
        EglContext {
            context: self.context.clone(),
            version: self.version,
            display: self.display.clone(),
            pbuffer: match &self.pbuffer {
                Some(pbuffer) => Some(pbuffer.clone()),
                None => None,
            },
        }
    }
}

impl<C, D, P> EglContext<C, D, P> {
    /// The command that makes the context current.
    pub open spec fn spec_make_current(self) -> Command {
        if self.pbuffer is Some {
            Command::MakeCurrentPbuffer
        } else {
            Command::MakeCurrentSurfaceless
        }
    }

    /// What the context is current with once that command succeeded.
    pub open spec fn idle(self) -> Current {
        if self.pbuffer is Some {
            Current::Pbuffer
        } else {
            Current::Surfaceless
        }
    }

    /// The command that makes the context current where there is no window: with its pbuffer, or
    /// without a surface where it has none.
    pub fn make_current(&self) -> (r: Command)
        ensures
            r == self.spec_make_current(),
    {
        match self.pbuffer {
            Some(_) => Command::MakeCurrentPbuffer,
            None => Command::MakeCurrentSurfaceless,
        }
    }

    /// The command that makes the context not current.
    pub fn unmake_current(&self) -> (r: Command)
        ensures
            r == Command::MakeNotCurrent,
    {
        Command::MakeNotCurrent
    }
}

impl<C: Clone, D: Clone, P: Clone> EglContext<C, D, P> {
    /// Whether `copy` has clones of all handles.
    pub open spec fn is_cloned_by(self, copy: Self) -> bool {
        &&& cloned(self.context, copy.context)
        &&& copy.version == self.version
        &&& cloned(self.display, copy.display)
        &&& copy.pbuffer is Some <==> self.pbuffer is Some
        &&& self.pbuffer matches Some(pbuffer) ==> cloned(pbuffer, copy.pbuffer->0)
    }
}

/// The OpenGL functions `G` and the EGL context that they need. A context that was made
/// elsewhere has no `egl`.
pub struct AdapterContext<G, C, D, P> {
    /// The OpenGL functions.
    pub glow: G,
    /// The EGL context, where it belongs to the adapter.
    pub egl: Option<EglContext<C, D, P>>,
}

/// The EGL context that a lock keeps current.
pub struct EglContextLock<'a, C, D> {
    /// The context.
    pub context: &'a C,
    /// The display.
    pub display: D,
}

/// A guard `M` over the OpenGL functions, while the context is kept current.
pub struct AdapterContextLock<'a, M, C, D> {
    /// The guard.
    pub glow: M,
    /// The EGL context, where it belongs to the adapter.
    pub egl: Option<EglContextLock<'a, C, D>>,
}

impl<G, C, D, P> AdapterContext<G, C, D, P> {
    /// Whether the EGL context belongs to the adapter.
    pub fn is_owned(&self) -> (r: bool)
        ensures
            r == (self.egl is Some),
    {
        self.egl.is_some()
    }

    /// The display through whose EGL functions the adapter works, if the context belongs to it.
    pub fn egl_instance(&self) -> (r: Option<&D>)
        ensures
            r is Some <==> self.egl is Some,
            self.egl matches Some(egl) ==> *r->0 == egl.display,
    {
        match &self.egl {
            Some(egl) => Some(&egl.display),
            None => None,
        }
    }

    /// The display of the context, if the context belongs to the adapter.
    pub fn raw_display(&self) -> (r: Option<D>) where D: Clone
        ensures
            r is Some <==> self.egl is Some,
            self.egl matches Some(egl) ==> cloned(egl.display, r->0),
    {
        match &self.egl {
            Some(egl) => Some(egl.display.clone()),
            None => None,
        }
    }

    /// The version of EGL that the context was created with, if it belongs to the adapter.
    pub fn egl_version(&self) -> (r: Option<(i32, i32)>)
        ensures
            r == (match self.egl {
                Some(egl) => Some(egl.version),
                None => None,
            }),
    {
        match &self.egl {
            Some(egl) => Some(egl.version),
            None => None,
        }
    }

    /// The context itself, if it belongs to the adapter.
    pub fn raw_context(&self) -> (r: Option<&C>)
        ensures
            r is Some <==> self.egl is Some,
            self.egl matches Some(egl) ==> *r->0 == egl.context,
    {
        match &self.egl {
            Some(egl) => Some(&egl.context),
            None => None,
        }
    }

    /// The command that makes the context current for a lock.
    pub open spec fn spec_lock_command(self) -> Option<Command> {
        match self.egl {
            Some(egl) => Some(egl.spec_make_current()),
            None => None,
        }
    }

    /// Whether there is a lock, given whether that command succeeded.
    pub open spec fn can_lock(self, made_current: bool) -> bool {
        self.egl is None || made_current
    }

    /// Begins a lock, once there is a guard over the OpenGL functions: the one command that has
    /// to succeed, and whose outcome `lock` takes. A context that was made elsewhere is left
    /// alone.
    pub fn lock_command(&self) -> (r: Option<Command>)
        ensures
            r == self.spec_lock_command(),
    {
        match &self.egl {
            Some(egl) => Some(egl.make_current()),
            None => None,
        }
    }

    /// Turns the guard over the OpenGL functions into a lock, given whether the context was made
    /// current. An adapter that owns its context has no lock, and the guard is given up, where it
    /// was not: a lock means that the context is current. Where the context was made elsewhere
    /// nothing was tried, and `made_current` does not matter.
    pub fn lock<'a, M>(&'a self, glow: M, made_current: bool) -> (r: Option<
        AdapterContextLock<'a, M, C, D>,
    >) where D: Clone
        ensures
            r is Some <==> self.can_lock(made_current),
            r matches Some(lock) ==> {
                &&& lock.glow == glow
                &&& lock.egl is Some <==> self.egl is Some
                &&& self.egl matches Some(egl) ==> *(lock.egl->0.context) == egl.context && cloned(
                    egl.display,
                    lock.egl->0.display,
                )
            },
    {
        match &self.egl {
            Some(egl) => if made_current {
                let egl = EglContextLock { context: &egl.context, display: egl.display.clone() };
                Some(AdapterContextLock { glow, egl: Some(egl) })
            } else {
                None
            },
            None => Some(AdapterContextLock { glow, egl: None }),
        }
    }

    /// The commands that drop the OpenGL functions.
    pub open spec fn teardown_commands(self) -> Seq<Command> {
        match self.egl {
            Some(egl) => seq![
                egl.spec_make_current(),
                Command::DropFunctions,
                Command::MakeNotCurrent,
            ],
            None => seq![Command::DropFunctions],
        }
    }

    /// How the OpenGL functions are dropped: the context has to be current meanwhile. Where it
    /// was made elsewhere, whoever drops the adapter sees to that.
    pub fn teardown(&self) -> (r: Vec<Command>)
        ensures
            r@ == self.teardown_commands(),
    {
        let mut commands: Vec<Command> = Vec::new();
        if let Some(egl) = &self.egl {
            commands.push(egl.make_current());
        }
        commands.push(Command::DropFunctions);
        if let Some(egl) = &self.egl {
            commands.push(egl.unmake_current());
        }
        assert(commands@ =~= self.teardown_commands());
        commands
    }
}

impl<'a, M, C, D> AdapterContextLock<'a, M, C, D> {
    /// The commands that end the lock.
    pub open spec fn release_commands(self) -> Seq<Command> {
        if self.egl is Some {
            seq![Command::MakeNotCurrent]
        } else {
            seq![]
        }
    }

    /// Ends the lock on the EGL context. A second call does nothing.
    pub fn release(&mut self) -> (r: Vec<Command>)
        ensures
            r@ == old(self).release_commands(),
            final(self).egl is None,
            final(self).glow == old(self).glow,
    {
        let mut commands: Vec<Command> = Vec::new();
        if let Some(_egl) = self.egl.take() {
            commands.push(Command::MakeNotCurrent);
        }
        assert(commands@ =~= old(self).release_commands());
        commands
    }
}

/// The state after an adapter was locked, or could not be, given whether the context was made
/// current.
pub open spec fn locked<G, C, D, P>(
    context: AdapterContext<G, C, D, P>,
    made_current: bool,
    state: GlState,
) -> GlState {
    match context.spec_lock_command() {
        Some(command) => state.attempt(command, made_current),
        None => state,
    }
}

/// A lock on an adapter that owns its context means that the context is current. Where the
/// context could not be made current, there is no lock and nothing has changed. A context that
/// was made elsewhere is not touched.
pub proof fn law_lock_means_current<G, C, D, P>(
    context: AdapterContext<G, C, D, P>,
    made_current: bool,
    state: GlState,
)
    ensures
        context.egl matches Some(egl) ==> context.can_lock(made_current) ==> locked(
            context,
            made_current,
            state,
        ) == (GlState { current: egl.idle(), ..state }) && egl.idle() != Current::Nothing,
        !context.can_lock(made_current) ==> locked(context, made_current, state) == state,
        context.egl is None ==> context.can_lock(made_current) && locked(
            context,
            made_current,
            state,
        ) == state,
{
}

/// Ending a lock undoes it: a context that was not current is not current again, so that the
/// next lock finds it free.
pub proof fn law_release_undoes_lock<'a, G, M, C, D, P>(
    context: AdapterContext<G, C, D, P>,
    made_current: bool,
    lock: AdapterContextLock<'a, M, C, D>,
    state: GlState,
)
    requires
        context.can_lock(made_current),
        lock.egl is Some <==> context.egl is Some,
        context.egl is Some ==> state.current == Current::Nothing,
    ensures
        locked(context, made_current, state).run(lock.release_commands()) == state,
{
    reveal_with_fuel(GlState::after, 2);
}

/// An adapter that owns its context drops the OpenGL functions while the context is current, and
/// leaves it not current. Nothing reports debug messages afterwards.
pub proof fn law_functions_are_dropped_while_current<G, C, D, P>(
    context: AdapterContext<G, C, D, P>,
    state: GlState,
)
    requires
        context.egl is Some,
    ensures
        state.is_current_for(context.teardown_commands()),
        state.run(context.teardown_commands()) == (GlState {
            current: Current::Nothing,
            loaded: false,
            reports_debug: false,
            ..state
        }),
{
    let make = context.egl->0.spec_make_current();
    let current = state.apply(make);
    let dropped = current.apply(Command::DropFunctions);
    lemma_run_one(state, make);
    lemma_run_one(current, Command::DropFunctions);
    lemma_run_one(dropped, Command::MakeNotCurrent);
    law_commands_compose(state, seq![make], seq![Command::DropFunctions]);
    law_commands_compose(
        state,
        seq![make] + seq![Command::DropFunctions],
        seq![Command::MakeNotCurrent],
    );
    assert(context.teardown_commands() =~= seq![make] + seq![Command::DropFunctions] + seq![
        Command::MakeNotCurrent,
    ]);
}

/// A context with a pbuffer is made current with it, and one without a pbuffer without a surface,
/// whatever its version is.
pub proof fn law_current_with_the_pbuffer<C, D, P>(egl: EglContext<C, D, P>, state: GlState)
    ensures
        egl.pbuffer is Some ==> egl.spec_make_current() == Command::MakeCurrentPbuffer && egl.idle()
            == Current::Pbuffer && state.apply(egl.spec_make_current()).current == Current::Pbuffer,
        egl.pbuffer is None ==> egl.spec_make_current() == Command::MakeCurrentSurfaceless
            && egl.idle() == Current::Surfaceless && state.apply(egl.spec_make_current()).current
            == Current::Surfaceless,
{
}

/// An adapter that owns its context makes it current for a lock, and has the lock exactly if that
/// succeeded. One with a context from elsewhere tries nothing and always has the lock.
pub proof fn law_lock_cases<G, C, D, P>(context: AdapterContext<G, C, D, P>, made_current: bool)
    ensures
        context.egl matches Some(egl) ==> {
            &&& context.spec_lock_command() == Some(
                if egl.pbuffer is Some {
                    Command::MakeCurrentPbuffer
                } else {
                    Command::MakeCurrentSurfaceless
                },
            )
            &&& context.can_lock(made_current) <==> made_current
        },
        context.egl is None ==> context.spec_lock_command() is None && context.can_lock(
            made_current,
        ),
{
}

/// A lock that keeps a context current ends with the context not current, wherever it was current,
/// and nothing else changes. Any other lock ends without a command.
pub proof fn law_release_frees_the_context<'a, M, C, D>(
    lock: AdapterContextLock<'a, M, C, D>,
    state: GlState,
)
    ensures
        lock.egl is Some ==> lock.release_commands() == seq![Command::MakeNotCurrent] && state.run(
            lock.release_commands(),
        ) == (GlState { current: Current::Nothing, ..state }),
        lock.egl is None ==> lock.release_commands().len() == 0 && state.run(
            lock.release_commands(),
        ) == state,
{
    lemma_run_one(state, Command::MakeNotCurrent);
}

/// The OpenGL functions are dropped exactly once, between making the context current and not
/// current where the adapter owns it, and alone where it does not.
pub proof fn law_teardown_drops_functions_once<G, C, D, P>(context: AdapterContext<G, C, D, P>)
    ensures
        context.egl matches Some(egl) ==> {
            &&& context.teardown_commands().len() == 3
            &&& context.teardown_commands()[0] == (if egl.pbuffer is Some {
                Command::MakeCurrentPbuffer
            } else {
                Command::MakeCurrentSurfaceless
            })
            &&& context.teardown_commands()[1] == Command::DropFunctions
            &&& context.teardown_commands()[2] == Command::MakeNotCurrent
        },
        context.egl is None ==> context.teardown_commands() == seq![Command::DropFunctions],
{
}

/// A clone of a context has clones of its handles, the same version, and a pbuffer exactly if the
/// context has one.
pub proof fn law_clone_keeps_everything<C: Clone, D: Clone, P: Clone>(
    egl: EglContext<C, D, P>,
    copy: EglContext<C, D, P>,
)
    ensures
        egl.is_cloned_by(copy) <==> {
            &&& cloned(egl.context, copy.context)
            &&& cloned(egl.display, copy.display)
            &&& egl.version == copy.version
            &&& match (egl.pbuffer, copy.pbuffer) {
                (Some(pbuffer), Some(other)) => cloned(pbuffer, other),
                (None, None) => true,
                _ => false,
            }
        },
        egl.is_cloned_by(copy) ==> copy.spec_make_current() == egl.spec_make_current(),
{
}

/// One waits a second for the lock.
pub proof fn law_one_second_to_lock()
    ensures
        CONTEXT_LOCK_TIMEOUT_SECS == 1,
{
}

} // verus!
