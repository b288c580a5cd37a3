//! How the framebuffer supports sRGB.

use vstd::prelude::*;
use crate::display::{at_least, contains_extension};
use crate::display::{has_extension, is_at_least, law_extensions_count_by_name};

verus! {

/// How the framebuffer supports sRGB.
#[derive(Clone, Copy, Debug, PartialEq, Eq, Structural)]
pub enum SrgbFrameBufferKind {
    /// No support for sRGB surfaces.
    Unsupported,
    /// The color spaces of EGL 1.5.
    Core,
    /// `EGL_KHR_gl_colorspace`.
    Khr,
}

/// The extension that brings color spaces to versions of EGL before 1.5.
pub open spec fn colorspace_extension() -> Seq<char> {
    "EGL_KHR_gl_colorspace"@
}

/// The support of a display with this version of EGL and these extensions.
pub open spec fn srgb_kind_of(version: (i32, i32), extensions: Seq<String>) -> SrgbFrameBufferKind {
    if is_at_least(version, 1, 5) {
        SrgbFrameBufferKind::Core
    } else if has_extension(extensions, colorspace_extension()) {
        SrgbFrameBufferKind::Khr
    } else {
        SrgbFrameBufferKind::Unsupported
    }
}

/// How a display with this version of EGL and these extensions supports sRGB.
pub fn choose_srgb_kind(version: (i32, i32), extensions: &Vec<String>) -> (r: SrgbFrameBufferKind)
    ensures
        r == srgb_kind_of(version, extensions@),
{
    if at_least(version, 1, 5) {
        SrgbFrameBufferKind::Core
    } else if contains_extension(extensions, "EGL_KHR_gl_colorspace") {
        SrgbFrameBufferKind::Khr
    } else {
        SrgbFrameBufferKind::Unsupported
    }
}

/// A later version of EGL never supports less.
pub proof fn law_later_versions_keep_srgb(
    version: (i32, i32),
    later: (i32, i32),
    extensions: Seq<String>,
)
    requires
        is_at_least(later, version.0, version.1),
    ensures
        srgb_kind_of(version, extensions) != SrgbFrameBufferKind::Unsupported ==> srgb_kind_of(
            later,
            extensions,
        ) != SrgbFrameBufferKind::Unsupported,
        srgb_kind_of(version, extensions) == SrgbFrameBufferKind::Core ==> srgb_kind_of(
            later,
            extensions,
        ) == SrgbFrameBufferKind::Core,
{
}

/// From EGL 1.5 on the support is that of EGL itself. Before, it is that of the extension exactly
/// where `EGL_KHR_gl_colorspace` is among the extensions, and else there is none.
pub proof fn law_srgb_cases(version: (i32, i32), extensions: Seq<String>)
    ensures
        version.0 > 1 || (version.0 == 1 && version.1 >= 5) ==> srgb_kind_of(version, extensions)
            == SrgbFrameBufferKind::Core,
        version.0 < 1 || (version.0 == 1 && version.1 < 5) ==> ((srgb_kind_of(version, extensions)
            == SrgbFrameBufferKind::Khr) <==> exists|i: int|
            0 <= i < extensions.len() && (#[trigger] extensions[i])@ == "EGL_KHR_gl_colorspace"@),
        version.0 < 1 || (version.0 == 1 && version.1 < 5) ==> ((srgb_kind_of(version, extensions)
            == SrgbFrameBufferKind::Unsupported) <==> forall|i: int|
            0 <= i < extensions.len() ==> (#[trigger] extensions[i])@
                != "EGL_KHR_gl_colorspace"@),
{
}

/// An extension with another name than `EGL_KHR_gl_colorspace` never changes the support.
pub proof fn law_other_extensions_keep_srgb(
    version: (i32, i32),
    extensions: Seq<String>,
    further: String,
)
    requires
        further@ != "EGL_KHR_gl_colorspace"@,
    ensures
        srgb_kind_of(version, extensions.push(further)) == srgb_kind_of(version, extensions),
{
    law_extensions_count_by_name(extensions, further, colorspace_extension());
}

} // verus!
