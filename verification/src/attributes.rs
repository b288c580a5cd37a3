//! What is asked of a context, and in which order.

use vstd::prelude::*;
use glutin::context::{ContextAttributes, ContextAttributesBuilder, Version};

verus! {

/// The rendering interface of a context, with the version that is asked for.
#[derive(Clone, Copy, Debug, PartialEq, Eq)]
pub enum ContextApi {
    /// OpenGL.
    OpenGl(Option<(u8, u8)>),
    /// OpenGL ES.
    Gles(Option<(u8, u8)>),
}

/// `glutin::context::ContextAttributes`, which is only carried from where it is built to where it
/// is used.
#[verifier::external_type_specification]
#[verifier::external_body]
pub struct ExContextAttributes(ContextAttributes);

/// The attributes that glutin's `ContextAttributesBuilder` builds for this interface, or for
/// whichever is supported, all else being left as it is by default and without a window.
pub uninterp spec fn glutin_context_attributes(api: Option<ContextApi>) -> ContextAttributes;

/// Builds attributes with glutin's `ContextAttributesBuilder`: `new`, `build`. Claims that they
/// are those in which no interface is set.
#[verifier::external_body]
fn default_attributes() -> (r: ContextAttributes)
    ensures
        r == glutin_context_attributes(None),
{
    ContextAttributesBuilder::new().build(None)
}

/// Builds attributes with glutin's `ContextAttributesBuilder`: `new`, `with_context_api` with
/// `ContextApi::Gles`, `build`. Claims that they depend on the version alone.
#[verifier::external_body]
fn gles_attributes(version: Option<(u8, u8)>) -> (r: ContextAttributes)
    ensures
        r == glutin_context_attributes(Some(ContextApi::Gles(version))),
{
    let version = version.map(|v| Version::new(v.0, v.1));
    ContextAttributesBuilder::new()
        .with_context_api(glutin::context::ContextApi::Gles(version))
        .build(None)
}

/// Builds attributes with glutin's `ContextAttributesBuilder`: `new`, `with_context_api` with
/// `ContextApi::OpenGl`, `build`. Claims that they depend on the version alone.
#[verifier::external_body]
fn opengl_attributes(version: Option<(u8, u8)>) -> (r: ContextAttributes)
    ensures
        r == glutin_context_attributes(Some(ContextApi::OpenGl(version))),
{
    let version = version.map(|v| Version::new(v.0, v.1));
    ContextAttributesBuilder::new()
        .with_context_api(glutin::context::ContextApi::OpenGl(version))
        .build(None)
}

/// The attributes that ask for this interface, or for whichever is supported.
pub fn context_attributes(api: Option<ContextApi>) -> (r: ContextAttributes)
    ensures
        r == glutin_context_attributes(api),
{
    match api {
        None => default_attributes(),
        Some(ContextApi::Gles(version)) => gles_attributes(version),
        Some(ContextApi::OpenGl(version)) => opengl_attributes(version),
    }
}

/// The attempts at a context. Each one but the first is made when the one before it failed.
#[derive(Clone, Copy, Debug, PartialEq, Eq, Structural)]
pub enum ContextAttempt {
    /// Whatever interface is supported.
    Default,
    /// OpenGL ES, because an OpenGL core context may not be there.
    Fallback,
    /// OpenGL 2.1, for old devices that support neither modern OpenGL nor OpenGL ES.
    Legacy,
}

impl ContextAttempt {
    /// The interface that is asked for.
    pub open spec fn spec_api(self) -> Option<ContextApi> {
        match self {
            ContextAttempt::Default => None,
            ContextAttempt::Fallback => Some(ContextApi::Gles(None)),
            ContextAttempt::Legacy => Some(ContextApi::OpenGl(Some((2u8, 1u8)))),
        }
    }

    /// The attempt that follows when this one failed.
    pub open spec fn spec_next(self) -> Option<ContextAttempt> {
        match self {
            ContextAttempt::Default => Some(ContextAttempt::Fallback),
            ContextAttempt::Fallback => Some(ContextAttempt::Legacy),
            ContextAttempt::Legacy => None,
        }
    }

    /// The number of attempts that can follow.
    pub open spec fn left(self) -> nat {
        match self {
            ContextAttempt::Default => 2,
            ContextAttempt::Fallback => 1,
            ContextAttempt::Legacy => 0,
        }
    }

    /// The interface that is asked for.
    pub fn api(self) -> (r: Option<ContextApi>)
        ensures
            r == self.spec_api(),
    {
        match self {
            ContextAttempt::Default => None,
            ContextAttempt::Fallback => Some(ContextApi::Gles(None)),
            ContextAttempt::Legacy => Some(ContextApi::OpenGl(Some((2, 1)))),
        }
    }

    /// The attempt that follows when this one failed. After the last one there is none.
    pub fn next(self) -> (r: Option<ContextAttempt>)
        ensures
            r == self.spec_next(),
    {
        match self {
            ContextAttempt::Default => Some(ContextAttempt::Fallback),
            ContextAttempt::Fallback => Some(ContextAttempt::Legacy),
            ContextAttempt::Legacy => None,
        }
    }
}

/// The attempt that gives the context, from this one on, where an attempt succeeds if `works`
/// holds of what it asks for.
pub open spec fn settled(
    attempt: ContextAttempt,
    works: spec_fn(Option<ContextApi>) -> bool,
) -> Option<ContextAttempt>
    decreases attempt.left(),
{
    if works(attempt.spec_api()) {
        Some(attempt)
    } else {
        match attempt.spec_next() {
            Some(next) => settled(next, works),
            None => None,
        }
    }
}

/// Whatever works is taken in this order: what is supported by default, then OpenGL ES, then
/// OpenGL 2.1. Only where none of the three works is there no context.
pub proof fn law_first_working_attempt_is_taken(works: spec_fn(Option<ContextApi>) -> bool)
    ensures
        settled(ContextAttempt::Default, works) == (if works(None) {
            Some(ContextAttempt::Default)
        } else if works(Some(ContextApi::Gles(None))) {
            Some(ContextAttempt::Fallback)
        } else if works(Some(ContextApi::OpenGl(Some((2u8, 1u8))))) {
            Some(ContextAttempt::Legacy)
        } else {
            None
        }),
{
    reveal_with_fuel(settled, 3);
}

/// Each attempt asks for one interface: at first for none in particular, then for any version of
/// OpenGL ES, and at last for OpenGL 2.1. No attempt is made twice.
pub proof fn law_attempts_in_order(attempt: ContextAttempt)
    ensures
        attempt.spec_api() is None <==> attempt == ContextAttempt::Default,
        attempt.spec_api() == Some(ContextApi::Gles(None)) <==> attempt == ContextAttempt::Fallback,
        attempt.spec_api() == Some(ContextApi::OpenGl(Some((2u8, 1u8)))) <==> attempt
            == ContextAttempt::Legacy,
        attempt.spec_next() is None <==> attempt == ContextAttempt::Legacy,
        attempt.spec_next() == Some(ContextAttempt::Fallback) <==> attempt
            == ContextAttempt::Default,
        attempt.spec_next() == Some(ContextAttempt::Legacy) <==> attempt
            == ContextAttempt::Fallback,
{
}

} // verus!
