//! What a display offers: its version of EGL and its extensions.

use vstd::prelude::*;

verus! {

/// The extension with which a context can be current without a surface before EGL 1.5.
pub open spec fn surfaceless_extension() -> Seq<char> {
    "EGL_KHR_surfaceless_context"@
}

/// Whether a version is `major.minor` or a later one.
pub open spec fn is_at_least(version: (i32, i32), major: i32, minor: i32) -> bool {
    version.0 > major || (version.0 == major && version.1 >= minor)
}

/// Whether `name` is among the extensions.
pub open spec fn has_extension(extensions: Seq<String>, name: Seq<char>) -> bool {
    exists|i: int| 0 <= i < extensions.len() && (#[trigger] extensions[i])@ == name
}

/// Whether a context on a display with this version of EGL and these extensions can only be
/// current with a surface, so that it needs a pbuffer where there is no window.
pub open spec fn spec_needs_pbuffer(version: (i32, i32), extensions: Seq<String>) -> bool {
    !is_at_least(version, 1, 5) && !has_extension(extensions, surfaceless_extension())
}

/// Whether `name` is among the extensions.
pub fn contains_extension(extensions: &Vec<String>, name: &str) -> (r: bool)
    ensures
        r == has_extension(extensions@, name@),
{
    let wanted = name.to_owned();
    let mut i: usize = 0;
    while i < extensions.len()
        invariant
            i <= extensions.len(),
            wanted@ == name@,
            forall|k: int| 0 <= k < i ==> (#[trigger] extensions[k])@ != name@,
        decreases extensions.len() - i,
    {
        if extensions[i] == wanted {
            assert(extensions[i as int]@ == name@);
            return true;
        }
        i += 1;
    }
    false
}

/// Whether a version is `major.minor` or a later one.
pub fn at_least(version: (i32, i32), major: i32, minor: i32) -> (r: bool)
    ensures
        r == is_at_least(version, major, minor),
{
    version.0 > major || (version.0 == major && version.1 >= minor)
}

/// Whether a context on a display with this version of EGL and these extensions needs a pbuffer
/// to be current where there is no window.
pub fn needs_pbuffer(version: (i32, i32), extensions: &Vec<String>) -> (r: bool)
    ensures
        r == spec_needs_pbuffer(version, extensions@),
{
    !at_least(version, 1, 5) && !contains_extension(extensions, "EGL_KHR_surfaceless_context")
}

/// A later version of EGL never makes a pbuffer necessary, nor does a further extension.
pub proof fn law_more_support_needs_no_pbuffer(
    version: (i32, i32),
    later: (i32, i32),
    extensions: Seq<String>,
    further: Seq<String>,
)
    requires
        is_at_least(later, version.0, version.1),
    ensures
        !spec_needs_pbuffer(version, extensions) ==> !spec_needs_pbuffer(
            later,
            extensions + further,
        ),
{
    if has_extension(extensions, surfaceless_extension()) {
        let i = choose|i: int|
            0 <= i < extensions.len() && (#[trigger] extensions[i])@ == surfaceless_extension();
        assert((extensions + further)[i]@ == surfaceless_extension());
    }
}

/// Versions are ordered by their major number, and by their minor number where that is equal.
pub proof fn law_versions_are_ordered(a: (i32, i32), b: (i32, i32), c: (i32, i32))
    ensures
        a.0 > b.0 ==> is_at_least(a, b.0, b.1) && !is_at_least(b, a.0, a.1),
        a.0 == b.0 ==> (is_at_least(a, b.0, b.1) <==> a.1 >= b.1),
        is_at_least(a, b.0, b.1) || is_at_least(b, a.0, a.1),
        is_at_least(a, b.0, b.1) && is_at_least(b, c.0, c.1) ==> is_at_least(a, c.0, c.1),
{
}

/// A context needs a pbuffer exactly before EGL 1.5 where none of the extensions is
/// `EGL_KHR_surfaceless_context`.
pub proof fn law_pbuffer_cases(version: (i32, i32), extensions: Seq<String>)
    ensures
        version.0 > 1 || (version.0 == 1 && version.1 >= 5) ==> !spec_needs_pbuffer(
            version,
            extensions,
        ),
        version.0 < 1 || (version.0 == 1 && version.1 < 5) ==> (spec_needs_pbuffer(
            version,
            extensions,
        ) <==> forall|i: int|
            0 <= i < extensions.len() ==> (#[trigger] extensions[i])@
                != "EGL_KHR_surfaceless_context"@),
{
}

/// Whether a name is among the extensions is decided by each of them alone: one more makes a
/// difference only if it is the name.
pub proof fn law_extensions_count_by_name(extensions: Seq<String>, further: String, name: Seq<char>)
    ensures
        !has_extension(Seq::<String>::empty(), name),
        has_extension(extensions.push(further), name) <==> (has_extension(extensions, name)
            || further@ == name),
{
    let all = extensions.push(further);
    assert(all[extensions.len() as int] == further);
    if has_extension(extensions, name) {
        let i = choose|i: int| 0 <= i < extensions.len() && (#[trigger] extensions[i])@ == name;
        assert(all[i]@ == name);
    }
    if has_extension(all, name) && further@ != name {
        let i = choose|i: int| 0 <= i < all.len() && (#[trigger] all[i])@ == name;
        assert(extensions[i]@ == name);
    }
}

/// An extension with another name never changes whether a pbuffer is needed.
pub proof fn law_other_extensions_need_no_pbuffer(
    version: (i32, i32),
    extensions: Seq<String>,
    further: String,
)
    requires
        further@ != "EGL_KHR_surfaceless_context"@,
    ensures
        spec_needs_pbuffer(version, extensions.push(further)) == spec_needs_pbuffer(
            version,
            extensions,
        ),
{
    law_extensions_count_by_name(extensions, further, surfaceless_extension());
}

} // verus!
